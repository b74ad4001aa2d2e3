//! Response parser: turns the HTML documents returned by the external
//! booking system into typed results — feedback-panel error messages, the
//! selectable trains, the member-system token, the booking-form parameters
//! and the final confirmation summary.
//!
//! Every extraction is specified against the named document queries of
//! `crate::query`; a missing required element means the external page
//! structure diverged and is a `MalformedDocument` error.

use vstd::prelude::*;

use crate::codec::spec_parse_u32;
use crate::codec::parse_u32;
use crate::codec::str_equal;
use crate::models::ConfirmationSummary;
use crate::models::ConfirmationSummaryView;
use crate::models::ErrorMessages;
use crate::models::TrainInfo;
use crate::models::TrainInfoView;
use crate::models::WorkflowError;
use crate::query::attr_values_of;
use crate::query::first_texts_of;
use crate::query::inner_htmls_of;
use crate::query::select_attr_values;
use crate::query::select_first_texts;
use crate::query::select_inner_htmls;
use crate::query::select_sibling_span_htmls;
use crate::query::sibling_span_htmls_of;

verus! {

/// The first element of a query result, if there is one.
pub open spec fn spec_first_opt(s: Seq<Seq<char>>) -> Option<Seq<char>> {
    if s.len() > 0 {
        Some(s[0])
    } else {
        None
    }
}

/// The attribute value of the first element matching `sel`: `None` when
/// nothing matches or the first match lacks the attribute.
pub open spec fn spec_first_attr(doc: Seq<char>, sel: Seq<char>, attr: Seq<char>) -> Option<
    Seq<char>,
> {
    let vals = attr_values_of(doc, sel, attr);
    if vals.len() > 0 {
        vals[0]
    } else {
        None
    }
}

/// The present entries of a text-query result, in order.
pub open spec fn spec_present_texts(s: Seq<Option<Seq<char>>>) -> Seq<Seq<char>>
    decreases s.len(),
{
    if s.len() == 0 {
        Seq::empty()
    } else {
        let rest = spec_present_texts(s.drop_last());
        if s.last() is Some {
            rest.push(s.last()->0)
        } else {
            rest
        }
    }
}

/// The feedback-panel error messages of a returned document, in document
/// order.
pub open spec fn spec_validation_errors(doc: Seq<char>) -> Seq<Seq<char>> {
    spec_present_texts(first_texts_of(doc, "span.feedbackPanelERROR"@))
}

fn first_inner_html(html: &str, sel: &str) -> (r: Option<String>)
    ensures
        r.deep_view() == spec_first_opt(inner_htmls_of(html@, sel@)),
{
    let mut v = select_inner_htmls(html, sel);
    if v.len() == 0 {
        None
    } else {
        let s = v.remove(0);
        proof {
            assert(s@ == inner_htmls_of(html@, sel@)[0]);
        }
        Some(s)
    }
}

fn first_attr_value(html: &str, sel: &str, attr: &str) -> (r: Option<String>)
    ensures
        match r {
            Some(s) => spec_first_attr(html@, sel@, attr@) == Some(s@),
            None => spec_first_attr(html@, sel@, attr@) is None,
        },
{
    let mut v = select_attr_values(html, sel, attr);
    if v.len() == 0 {
        None
    } else {
        let o = v.remove(0);
        proof {
            assert(o.deep_view() == attr_values_of(html@, sel@, attr@)[0]);
        }
        o
    }
}

/// Extracts every feedback-panel error message of a returned document, in
/// document order. An empty list is the success case, not an error.
pub fn extract_validation_errors(html: &str) -> (r: Vec<String>)
    ensures
        r.deep_view() == spec_validation_errors(html@),
{
    let found = select_first_texts(html, "span.feedbackPanelERROR");
    let ghost fseq = first_texts_of(html@, "span.feedbackPanelERROR"@);
    let mut errors: Vec<String> = Vec::new();
    let mut i: usize = 0;
    while i < found.len()
        invariant
            found.deep_view() == fseq,
            i <= found@.len(),
            errors.deep_view() == spec_present_texts(fseq.subrange(0, i as int)),
        decreases found@.len() - i,
    {
        let ghost pre = errors.deep_view();
        proof {
            assert(fseq[i as int] == found@[i as int].deep_view());
        }
        match &found[i] {
            Some(t) => {
                errors.push(t.clone());
                proof {
                    assert(errors.deep_view() =~= pre.push(t@));
                }
            },
            None => {},
        }
        proof {
            assert(fseq.subrange(0, i as int + 1).drop_last() =~= fseq.subrange(0, i as int));
            assert(fseq.subrange(0, i as int + 1).last() == fseq[i as int]);
        }
        i = i + 1;
    }
    proof {
        assert(fseq.subrange(0, i as int) =~= fseq);
    }
    errors
}

/// Accepts a submission response exactly when its document shows no
/// feedback-panel error; a rejected submission hands all messages back in
/// document order.
pub fn assert_submission_errors(response_text: String) -> (r: Result<(), ErrorMessages>)
    ensures
        match r {
            Ok(u) => spec_validation_errors(response_text@).len() == 0,
            Err(e) => e.errors.deep_view() == spec_validation_errors(response_text@)
                && spec_validation_errors(response_text@).len() > 0,
        },
{
    let errors = extract_validation_errors(response_text.as_str());
    if errors.len() == 0 {
        Ok(())
    } else {
        Err(ErrorMessages { errors })
    }
}

/// The discount text of one train row: the early-bird and student labels
/// that are present, joined with a comma.
pub open spec fn spec_discount_text(row: Seq<char>) -> Seq<char> {
    let eb = spec_first_opt(inner_htmls_of(row, "p.early-bird"@));
    let st = spec_first_opt(inner_htmls_of(row, "p.student"@));
    if eb is Some && st is Some {
        eb->0 + ", "@ + st->0
    } else if eb is Some {
        eb->0
    } else if st is Some {
        st->0
    } else {
        Seq::empty()
    }
}

/// The discount labels of one train row, joined with `", "` when both are
/// present and empty when neither is.
pub fn parse_discount(row_html: &str) -> (r: String)
    ensures
        r@ == spec_discount_text(row_html@),
{
    let eb = first_inner_html(row_html, "p.early-bird");
    let st = first_inner_html(row_html, "p.student");
    match (eb, st) {
        (Some(e), Some(s)) => {
            let mut r = e;
            r.append(", ");
            r.append(s.as_str());
            r
        },
        (Some(e), None) => e,
        (None, Some(s)) => s,
        (None, None) => String::new(),
    }
}

/// The typed content of one train row, when every required sub-element is
/// present and the train identifier is numeric.
pub open spec fn spec_train_row(row: Seq<char>) -> Option<TrainInfoView> {
    let id_text = spec_first_opt(inner_htmls_of(row, "#QueryCode"@));
    let dep = spec_first_opt(inner_htmls_of(row, "#QueryDeparture"@));
    let arr = spec_first_opt(inner_htmls_of(row, "#QueryArrival"@));
    let dur = spec_first_opt(inner_htmls_of(row, ".duration > span:nth-of-type(2)"@));
    let fv = spec_first_attr(
        row,
        "input[name=\"TrainQueryDataViewPanel:TrainGroup\"]"@,
        "value"@,
    );
    if id_text is Some && spec_parse_u32(id_text->0) is Some && spec_parse_u32(id_text->0)->0
        <= i16::MAX && dep is Some && arr is Some && dur is Some && fv is Some {
        Some(
            TrainInfoView {
                id: spec_parse_u32(id_text->0)->0 as i16,
                depart: dep->0,
                arrive: arr->0,
                travel_time: dur->0,
                discount_str: spec_discount_text(row),
                form_value: fv->0,
            },
        )
    } else {
        None
    }
}

fn extract_train_row(row_html: &str) -> (r: Result<TrainInfo, WorkflowError>)
    ensures
        match r {
            Ok(t) => spec_train_row(row_html@) == Some(t@),
            Err(e) => spec_train_row(row_html@) is None && e is MalformedDocument,
        },
{
    let id_text = match first_inner_html(row_html, "#QueryCode") {
        Some(s) => s,
        None => {
            return Err(WorkflowError::MalformedDocument);
        },
    };
    let id_num = match parse_u32(id_text.as_str()) {
        Some(v) => v,
        None => {
            return Err(WorkflowError::MalformedDocument);
        },
    };
    if id_num > 32767 {
        return Err(WorkflowError::MalformedDocument);
    }
    let dep = match first_inner_html(row_html, "#QueryDeparture") {
        Some(s) => s,
        None => {
            return Err(WorkflowError::MalformedDocument);
        },
    };
    let arr = match first_inner_html(row_html, "#QueryArrival") {
        Some(s) => s,
        None => {
            return Err(WorkflowError::MalformedDocument);
        },
    };
    let dur = match first_inner_html(row_html, ".duration > span:nth-of-type(2)") {
        Some(s) => s,
        None => {
            return Err(WorkflowError::MalformedDocument);
        },
    };
    let fv = match first_attr_value(
        row_html,
        "input[name=\"TrainQueryDataViewPanel:TrainGroup\"]",
        "value",
    ) {
        Some(s) => s,
        None => {
            return Err(WorkflowError::MalformedDocument);
        },
    };
    let discount_str = parse_discount(row_html);
    Ok(
        TrainInfo {
            id: id_num as i16,
            depart: dep,
            arrive: arr,
            travel_time: dur,
            discount_str,
            form_value: fv,
        },
    )
}

/// The views of a list of trains, in order.
pub open spec fn spec_train_views(v: Seq<TrainInfo>) -> Seq<TrainInfoView> {
    Seq::new(v.len(), |i: int| v[i]@)
}

/// The train list of a query response: one entry per labeled row, in row
/// order, or nothing when any row is malformed.
pub open spec fn spec_train_options(doc: Seq<char>) -> Option<Seq<TrainInfoView>> {
    let rows = inner_htmls_of(doc, "label"@);
    if forall|i: int| 0 <= i < rows.len() ==> (#[trigger] spec_train_row(rows[i])) is Some {
        Some(Seq::new(rows.len(), |i: int| spec_train_row(rows[i])->0))
    } else {
        None
    }
}

/// Extracts the selectable trains of a query response, preserving row order.
/// Fails with `MalformedDocument` exactly when some row is missing a
/// required sub-element or carries a non-numeric train identifier.
pub fn extract_train_options(html: &str) -> (r: Result<Vec<TrainInfo>, WorkflowError>)
    ensures
        match r {
            Ok(ts) => spec_train_options(html@) == Some(spec_train_views(ts@)),
            Err(e) => spec_train_options(html@) is None && e is MalformedDocument,
        },
{
    let rows = select_inner_htmls(html, "label");
    let ghost rseq = inner_htmls_of(html@, "label"@);
    let mut out: Vec<TrainInfo> = Vec::new();
    let mut i: usize = 0;
    while i < rows.len()
        invariant
            rows.deep_view() == rseq,
            rseq == inner_htmls_of(html@, "label"@),
            i <= rows@.len(),
            out@.len() == i as nat,
            forall|j: int| 0 <= j < i ==> (#[trigger] spec_train_row(rseq[j])) is Some,
            forall|j: int| 0 <= j < i ==> #[trigger] out@[j]@ == spec_train_row(rseq[j])->0,
        decreases rows@.len() - i,
    {
        proof {
            assert(rseq[i as int] == rows@[i as int].deep_view());
        }
        let row = &rows[i];
        match extract_train_row(row.as_str()) {
            Ok(t) => {
                out.push(t);
            },
            Err(e) => {
                proof {
                    assert(spec_train_row(rseq[i as int]) is None);
                    assert(!(forall|j: int|
                        0 <= j < rseq.len() ==> (#[trigger] spec_train_row(rseq[j])) is Some));
                }
                return Err(e);
            },
        }
        i = i + 1;
    }
    proof {
        assert(Seq::new(rseq.len(), |j: int| spec_train_row(rseq[j])->0) =~= spec_train_views(
            out@,
        ));
    }
    Ok(out)
}

/// The value of the pre-checked member-system radio option, if present.
pub open spec fn spec_member_token(doc: Seq<char>) -> Option<Seq<char>> {
    spec_first_attr(
        doc,
        "input[name=\"TicketMemberSystemInputPanel:TakerMemberSystemDataView:memberSystemRadioGroup\"][checked]"@,
        "value"@,
    )
}

/// Extracts the pre-checked member-system radio option's value; its absence
/// means the page structure diverged.
pub fn extract_member_token(html: &str) -> (r: Result<String, WorkflowError>)
    ensures
        match r {
            Ok(t) => spec_member_token(html@) == Some(t@),
            Err(e) => spec_member_token(html@) is None && e is MalformedDocument,
        },
{
    match first_attr_value(
        html,
        "input[name=\"TicketMemberSystemInputPanel:TakerMemberSystemDataView:memberSystemRadioGroup\"][checked]",
        "value",
    ) {
        Some(t) => Ok(t),
        None => Err(WorkflowError::MalformedDocument),
    }
}

/// The search-by-time token of the booking page, if present.
pub open spec fn spec_search_by_value(doc: Seq<char>) -> Option<Seq<char>> {
    spec_first_attr(
        doc,
        "input[name=\"bookingMethod\"][data-target=\"search-by-time\"]"@,
        "value"@,
    )
}

/// The selectable time-slot tokens of the booking page, in document order,
/// or nothing when some option lacks a value.
pub open spec fn spec_time_options(doc: Seq<char>) -> Option<Seq<Seq<char>>> {
    let vals = attr_values_of(
        doc,
        "select[name=\"toTimeTable\"] > option:not([selected])"@,
        "value"@,
    );
    if forall|i: int| 0 <= i < vals.len() ==> (#[trigger] vals[i]) is Some {
        Some(Seq::new(vals.len(), |i: int| vals[i]->0))
    } else {
        None
    }
}

fn extract_time_options(html: &str) -> (r: Result<Vec<String>, WorkflowError>)
    ensures
        match r {
            Ok(ts) => spec_time_options(html@) == Some(ts.deep_view()),
            Err(e) => spec_time_options(html@) is None && e is MalformedDocument,
        },
{
    let vals = select_attr_values(
        html,
        "select[name=\"toTimeTable\"] > option:not([selected])",
        "value",
    );
    let ghost vseq = attr_values_of(
        html@,
        "select[name=\"toTimeTable\"] > option:not([selected])"@,
        "value"@,
    );
    let mut out: Vec<String> = Vec::new();
    let mut i: usize = 0;
    while i < vals.len()
        invariant
            vals.deep_view() == vseq,
            vseq == attr_values_of(
                html@,
                "select[name=\"toTimeTable\"] > option:not([selected])"@,
                "value"@,
            ),
            i <= vals@.len(),
            out@.len() == i as nat,
            forall|j: int| 0 <= j < i ==> (#[trigger] vseq[j]) is Some,
            forall|j: int| 0 <= j < i ==> #[trigger] out@[j]@ == vseq[j]->0,
        decreases vals@.len() - i,
    {
        proof {
            assert(vseq[i as int] == vals@[i as int].deep_view());
        }
        match &vals[i] {
            Some(t) => {
                out.push(t.clone());
            },
            None => {
                proof {
                    assert(vseq[i as int] is None);
                    assert(!(forall|j: int|
                        0 <= j < vseq.len() ==> (#[trigger] vseq[j]) is Some));
                }
                return Err(WorkflowError::MalformedDocument);
            },
        }
        i = i + 1;
    }
    proof {
        assert(Seq::new(vseq.len(), |j: int| vseq[j]->0) =~= out.deep_view());
    }
    Ok(out)
}

/// Extracts the session-bound booking-form parameters of the booking page:
/// the search-by-time token and the selectable time slots, kept with the
/// session identifier the page was fetched under. Fails with
/// `MalformedDocument` exactly when the token or a time-slot value is
/// absent.
pub fn extract_booking_form_params(html: &str, session_id: String) -> (r: Result<
    crate::models::BookingFormParams,
    WorkflowError,
>)
    ensures
        match r {
            Ok(p) => spec_search_by_value(html@) == Some(p.search_by_time_value@)
                && spec_time_options(html@) == Some(p.time_options.deep_view())
                && p.session_id@ == session_id@,
            Err(e) => (spec_search_by_value(html@) is None || spec_time_options(html@)
                is None) && e is MalformedDocument,
        },
{
    let search_by_time_value = match first_attr_value(
        html,
        "input[name=\"bookingMethod\"][data-target=\"search-by-time\"]",
        "value",
    ) {
        Some(v) => v,
        None => {
            return Err(WorkflowError::MalformedDocument);
        },
    };
    let time_options = match extract_time_options(html) {
        Ok(ts) => ts,
        Err(e) => {
            return Err(e);
        },
    };
    Ok(crate::models::BookingFormParams { session_id, search_by_time_value, time_options })
}

/// The path of the CAPTCHA image on the booking page, if present.
pub open spec fn spec_captcha_src(doc: Seq<char>) -> Option<Seq<char>> {
    spec_first_attr(doc, "#BookingS1Form_homeCaptcha_passCode"@, "src"@)
}

/// Extracts the full URL of the CAPTCHA image of the booking page; the
/// image element's absence means the page structure diverged.
pub fn extract_captcha_url(html: &str) -> (r: Result<String, WorkflowError>)
    ensures
        match r {
            Ok(u) => spec_captcha_src(html@) is Some && u@ == "https://irs.thsrc.com.tw"@
                + spec_captcha_src(html@)->0,
            Err(e) => spec_captcha_src(html@) is None && e is MalformedDocument,
        },
{
    match first_attr_value(html, "#BookingS1Form_homeCaptcha_passCode", "src") {
        Some(src) => {
            let mut u = String::from_str("https://irs.thsrc.com.tw");
            u.append(src.as_str());
            Ok(u)
        },
        None => Err(WorkflowError::MalformedDocument),
    }
}

/// The sibling value of the first row whose title text equals `title`:
/// `None` when no title matches or the matching row has no sibling value.
pub open spec fn spec_titled_value(
    rows: Seq<(Seq<char>, Option<Seq<char>>)>,
    title: Seq<char>,
) -> Option<Seq<char>>
    decreases rows.len(),
{
    if rows.len() == 0 {
        None
    } else if rows[0].0 == title {
        rows[0].1
    } else {
        spec_titled_value(rows.drop_first(), title)
    }
}

fn find_titled_value(html: &str, sel: &str, title: &str) -> (r: Option<String>)
    ensures
        match r {
            Some(s) => spec_titled_value(sibling_span_htmls_of(html@, sel@), title@) == Some(
                s@,
            ),
            None => spec_titled_value(sibling_span_htmls_of(html@, sel@), title@) is None,
        },
{
    let rows = select_sibling_span_htmls(html, sel);
    let ghost rseq = sibling_span_htmls_of(html@, sel@);
    proof {
        assert(rseq.skip(0) =~= rseq);
    }
    let mut i: usize = 0;
    while i < rows.len()
        invariant
            rows.deep_view() == rseq,
            rseq == sibling_span_htmls_of(html@, sel@),
            i <= rows@.len(),
            spec_titled_value(rseq, title@) == spec_titled_value(rseq.skip(i as int), title@),
        decreases rows@.len() - i,
    {
        proof {
            assert(rseq.skip(i as int)[0] == rseq[i as int]);
            assert(rseq[i as int] == rows@[i as int].deep_view());
            assert(rseq[i as int].0 == rows@[i as int].0@);
            assert(rseq[i as int].1 == rows@[i as int].1.deep_view());
        }
        let row = &rows[i];
        if str_equal(row.0.as_str(), title) {
            match &row.1 {
                Some(s) => {
                    return Some(s.clone());
                },
                None => {
                    return None;
                },
            }
        }
        proof {
            assert(rseq.skip(i as int).drop_first() =~= rseq.skip(i as int + 1));
        }
        i = i + 1;
    }
    proof {
        assert(rseq.skip(i as int) =~= Seq::<(Seq<char>, Option<Seq<char>>)>::empty());
    }
    None
}

/// The cabin-class label of a confirmation page: the sibling value of the
/// info row titled with the fixed cabin caption.
pub open spec fn spec_cabin_label(doc: Seq<char>) -> Option<Seq<char>> {
    spec_titled_value(sibling_span_htmls_of(doc, "p.info-title"@), "\u{8eca}\u{5ec2}"@)
}

/// The structured summary of a confirmation page, when every fixed-position
/// field is present.
pub open spec fn spec_confirmation_summary(doc: Seq<char>) -> Option<ConfirmationSummaryView> {
    let tid = spec_first_opt(inner_htmls_of(doc, "p.pnr-code > span:first-child"@));
    let price = spec_first_opt(inner_htmls_of(doc, "#setTrainTotalPriceValue"@));
    let date = spec_first_opt(inner_htmls_of(doc, "span.date > span"@));
    let from = spec_first_opt(inner_htmls_of(doc, "p.departure-stn > span"@));
    let to = spec_first_opt(inner_htmls_of(doc, "p.arrival-stn > span"@));
    let dep = spec_first_opt(inner_htmls_of(doc, "#setTrainDeparture0"@));
    let arr = spec_first_opt(inner_htmls_of(doc, "#setTrainArrival0"@));
    let code = spec_first_opt(inner_htmls_of(doc, "#setTrainCode0"@));
    let cabin = spec_cabin_label(doc);
    if tid is Some && price is Some && date is Some && from is Some && to is Some && dep
        is Some && arr is Some && code is Some && cabin is Some {
        Some(
            ConfirmationSummaryView {
                ticket_id: tid->0,
                total_price: price->0,
                date: date->0,
                from_station: from->0,
                to_station: to->0,
                depart_time: dep->0,
                arrive_time: arr->0,
                train_code: code->0,
                cabin_label: cabin->0,
                seat_labels: inner_htmls_of(doc, "div.seat-label > span"@),
            },
        )
    } else {
        None
    }
}

/// Extracts the confirmation summary of the final response: the ticket
/// identifier, the price, the journey fields, the cabin label found by its
/// fixed caption, and every seat label in document order. Fails with
/// `MalformedDocument` exactly when one of the fixed fields is absent.
pub fn extract_confirmation_summary(html: &str) -> (r: Result<
    ConfirmationSummary,
    WorkflowError,
>)
    ensures
        match r {
            Ok(s) => spec_confirmation_summary(html@) == Some(s@),
            Err(e) => spec_confirmation_summary(html@) is None && e is MalformedDocument,
        },
{
    let ticket_id = match first_inner_html(html, "p.pnr-code > span:first-child") {
        Some(s) => s,
        None => {
            return Err(WorkflowError::MalformedDocument);
        },
    };
    let total_price = match first_inner_html(html, "#setTrainTotalPriceValue") {
        Some(s) => s,
        None => {
            return Err(WorkflowError::MalformedDocument);
        },
    };
    let date = match first_inner_html(html, "span.date > span") {
        Some(s) => s,
        None => {
            return Err(WorkflowError::MalformedDocument);
        },
    };
    let from_station = match first_inner_html(html, "p.departure-stn > span") {
        Some(s) => s,
        None => {
            return Err(WorkflowError::MalformedDocument);
        },
    };
    let to_station = match first_inner_html(html, "p.arrival-stn > span") {
        Some(s) => s,
        None => {
            return Err(WorkflowError::MalformedDocument);
        },
    };
    let depart_time = match first_inner_html(html, "#setTrainDeparture0") {
        Some(s) => s,
        None => {
            return Err(WorkflowError::MalformedDocument);
        },
    };
    let arrive_time = match first_inner_html(html, "#setTrainArrival0") {
        Some(s) => s,
        None => {
            return Err(WorkflowError::MalformedDocument);
        },
    };
    let train_code = match first_inner_html(html, "#setTrainCode0") {
        Some(s) => s,
        None => {
            return Err(WorkflowError::MalformedDocument);
        },
    };
    let cabin_label = match find_titled_value(html, "p.info-title", "\u{8eca}\u{5ec2}") {
        Some(s) => s,
        None => {
            return Err(WorkflowError::MalformedDocument);
        },
    };
    let seat_labels = select_inner_htmls(html, "div.seat-label > span");
    Ok(
        ConfirmationSummary {
            ticket_id,
            total_price,
            date,
            from_station,
            to_station,
            depart_time,
            arrive_time,
            train_code,
            cabin_label,
            seat_labels,
        },
    )
}

} // verus!
