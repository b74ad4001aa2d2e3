//! The five-stage session state machine. It owns every session-bound token
//! (session identifier, search-method token, time slots, member token) and
//! advances linearly: a session starts on the booking page, waits for a
//! CAPTCHA solution, submits the booking, lists the trains, submits the
//! chosen train, and confirms the tickets. Any validation rejection or parse
//! failure moves the machine to its failed state; nothing is retried.
//!
//! The machine itself never performs I/O: each stage consumes the response
//! text of the previous outside call and produces the values of the next
//! one.

use vstd::prelude::*;

use crate::forms::gen_booking_url;
use crate::models::Booking;
use crate::models::BookingFormParams;
use crate::models::BookingPersisted;
use crate::models::ConfirmationSummary;
use crate::models::Preset;
use crate::models::TicketConfirmation;
use crate::models::TicketConfirmationFormParams;
use crate::models::TicketConfirmationPersisted;
use crate::models::TrainInfo;
use crate::models::TrainSelection;
use crate::models::Trip;
use crate::models::WorkflowError;
use crate::parser::assert_submission_errors;
use crate::parser::extract_booking_form_params;
use crate::parser::extract_captcha_url;
use crate::parser::extract_confirmation_summary;
use crate::parser::extract_member_token;
use crate::parser::extract_train_options;
use crate::parser::spec_captcha_src;
use crate::parser::spec_confirmation_summary;
use crate::parser::spec_member_token;
use crate::parser::spec_search_by_value;
use crate::parser::spec_time_options;
use crate::parser::spec_train_options;
use crate::parser::spec_train_views;
use crate::parser::spec_validation_errors;

verus! {

/// The full booking submission for one run: the reusable worksheet joined
/// with the session's search-method token and the CAPTCHA solution. Only
/// one-way trips are produced; the inbound and train-override fields stay
/// absent.
pub fn gen_booking(
    booking_worksheet: &BookingPersisted,
    booking_form_params: &BookingFormParams,
    captcha_solution: String,
) -> (r: Booking)
    ensures
        r@.persisted == booking_worksheet@,
        r@.search_by == booking_form_params.search_by_time_value@,
        r.types_of_trip is OneWay,
        r@.security_code == captcha_solution@,
        r@.form_mark.len() == 0,
        r.inbound_date is None,
        r.inbound_time is None,
        r.to_train_id is None,
        r.back_train_id is None,
{
    Booking {
        persisted: booking_worksheet.duplicate(),
        search_by: booking_form_params.search_by_time_value.clone(),
        types_of_trip: Trip::OneWay,
        security_code: captcha_solution,
        form_mark: String::new(),
        inbound_date: None,
        inbound_time: None,
        to_train_id: None,
        back_train_id: None,
    }
}

/// The full confirmation submission: the reusable worksheet joined with the
/// member-system token and the fixed defaults the form expects.
pub fn gen_ticket_confirmation(
    ticket_confirmation_worksheet: &TicketConfirmationPersisted,
    ticket_confirmation_params: &TicketConfirmationFormParams,
) -> (r: TicketConfirmation)
    ensures
        r@.persisted == ticket_confirmation_worksheet@,
        r@.member_radio == ticket_confirmation_params.member_value@,
        r@.form_mark.len() == 0,
        r.id_input_radio == 0,
        r.diff_over == 1,
        r@.email.len() == 0,
        r@.agree == "on"@,
        r@.go_back_m.len() == 0,
        r@.back_home.len() == 0,
        r.tgo_error == 1,
{
    TicketConfirmation {
        persisted: ticket_confirmation_worksheet.duplicate(),
        member_radio: ticket_confirmation_params.member_value.clone(),
        form_mark: String::new(),
        id_input_radio: 0,
        diff_over: 1,
        email: String::new(),
        agree: String::from_str("on"),
        go_back_m: String::new(),
        back_home: String::new(),
        tgo_error: 1,
    }
}

/// The preset at a 1-based index; an index outside the list is the
/// `PresetNotFound` error.
pub fn select_preset(presets: &Vec<Preset>, preset_num: usize) -> (r: Result<
    &Preset,
    WorkflowError,
>)
    ensures
        match r {
            Ok(p) => 1 <= preset_num <= presets@.len() && *p == presets@[preset_num - 1],
            Err(e) => !(1 <= preset_num <= presets@.len()) && e is PresetNotFound,
        },
{
    if 1 <= preset_num && preset_num <= presets.len() {
        Ok(&presets[preset_num - 1])
    } else {
        Err(WorkflowError::PresetNotFound)
    }
}

/// The submission for the train at `index` among the listed options: its
/// opaque selection token, and nothing else.
pub fn gen_train_selection(trains: &Vec<TrainInfo>, index: usize) -> (r: TrainSelection)
    requires
        index < trains@.len(),
    ensures
        r@.selected_train == trains@[index as int]@.form_value,
        r@.form_mark.len() == 0,
{
    TrainSelection {
        selected_train: trains[index].form_value.clone(),
        form_mark: String::new(),
    }
}

/// The stage a session is in, with the session-bound values that stage
/// owns. The stages are linear; `Failed` is the aborted end of a run.
pub enum SessionState {
    Init,
    CaptchaPending { params: BookingFormParams },
    BookingReady { params: BookingFormParams, captcha_solution: String },
    TrainsListed { trains: Vec<TrainInfo> },
    ConfirmationReady { member_value: String },
    Done,
    Failed,
}

/// One booking run against the external system, from first page load to the
/// confirmation summary.
pub struct SessionWorkflow {
    pub state: SessionState,
}

impl SessionWorkflow {
    /// A fresh run, before anything was fetched.
    pub fn new() -> (r: SessionWorkflow)
        ensures
            r.state is Init,
    {
        SessionWorkflow { state: SessionState::Init }
    }

    /// Consumes the fetched booking page and the session identifier from
    /// its cookie: stores the search-method token and the time slots, and
    /// hands back the CAPTCHA image URL. A missing token, time-slot value
    /// or CAPTCHA element means the page diverged and fails the run.
    pub fn start_session(&mut self, page_html: &str, session_id: String) -> (r: Result<
        String,
        WorkflowError,
    >)
        requires
            old(self).state is Init,
        ensures
            match r {
                Ok(url) => {
                    &&& final(self).state matches SessionState::CaptchaPending { params }
                    &&& spec_search_by_value(page_html@) == Some(params.search_by_time_value@)
                    &&& spec_time_options(page_html@) == Some(params.time_options.deep_view())
                    &&& params.session_id@ == session_id@
                    &&& spec_captcha_src(page_html@) is Some
                    &&& url@ == "https://irs.thsrc.com.tw"@ + spec_captcha_src(page_html@)->0
                },
                Err(e) => {
                    &&& final(self).state is Failed
                    &&& e is MalformedDocument
                    &&& (spec_search_by_value(page_html@) is None || spec_time_options(
                        page_html@,
                    ) is None || spec_captcha_src(page_html@) is None)
                },
            },
    {
        self.state = SessionState::Failed;
        let url = match extract_captcha_url(page_html) {
            Ok(u) => u,
            Err(e) => {
                return Err(e);
            },
        };
        let params = match extract_booking_form_params(page_html, session_id) {
            Ok(p) => p,
            Err(e) => {
                return Err(e);
            },
        };
        self.state = SessionState::CaptchaPending { params };
        Ok(url)
    }

    /// Stores the human-entered CAPTCHA solution; the run is then ready to
    /// submit the booking.
    pub fn provide_captcha_solution(&mut self, solution: String)
        requires
            old(self).state is CaptchaPending,
        ensures
            final(self).state matches SessionState::BookingReady { params, captcha_solution }
                && params == old(self).state->CaptchaPending_params && captcha_solution@
                == solution@,
    {
        let mut prev = SessionState::Init;
        core::mem::swap(&mut prev, &mut self.state);
        match prev {
            SessionState::CaptchaPending { params } => {
                self.state = SessionState::BookingReady { params, captcha_solution: solution };
            },
            _ => {
                unreached::<()>();
            },
        }
    }

    /// The session's booking-form parameters, available from the moment the
    /// booking page was absorbed until the booking is submitted.
    pub fn form_params(&self) -> (r: &BookingFormParams)
        requires
            self.state is CaptchaPending || self.state is BookingReady,
        ensures
            self.state is CaptchaPending ==> *r == self.state->CaptchaPending_params,
            self.state is BookingReady ==> *r == self.state->BookingReady_params,
    {
        match &self.state {
            SessionState::CaptchaPending { params } => params,
            SessionState::BookingReady { params, .. } => params,
            _ => unreached(),
        }
    }

    /// The URL the booking form is submitted to, bound to this session.
    pub fn submit_booking_url(&self) -> (r: String)
        requires
            self.state is BookingReady,
        ensures
            r@ == "https://irs.thsrc.com.tw/IMINT/;jsessionid="@
                + self.state->BookingReady_params.session_id@
                + "?wicket:interface=:0:BookingS1Form::IFormSubmitListener"@,
    {
        match &self.state {
            SessionState::BookingReady { params, .. } => gen_booking_url(
                params.session_id.clone(),
            ),
            _ => unreached(),
        }
    }

    /// The booking submission assembled from the given worksheet, this
    /// session's search-method token and the stored CAPTCHA solution.
    pub fn booking_request(&self, booking_worksheet: &BookingPersisted) -> (r: Booking)
        requires
            self.state is BookingReady,
        ensures
            r@.persisted == booking_worksheet@,
            r@.search_by == self.state->BookingReady_params.search_by_time_value@,
            r.types_of_trip is OneWay,
            r@.security_code == self.state->BookingReady_captcha_solution@,
            r@.form_mark.len() == 0,
            r.inbound_date is None,
            r.inbound_time is None,
            r.to_train_id is None,
            r.back_train_id is None,
    {
        match &self.state {
            SessionState::BookingReady { params, captcha_solution } => gen_booking(
                booking_worksheet,
                params,
                captcha_solution.clone(),
            ),
            _ => unreached(),
        }
    }

    /// Consumes the booking-submission response: a response with feedback
    /// errors rejects the run with those messages; otherwise the train rows
    /// are parsed and the run holds them, in row order.
    pub fn absorb_booking_response(&mut self, response_text: &str) -> (r: Result<
        (),
        WorkflowError,
    >)
        requires
            old(self).state is BookingReady,
        ensures
            match r {
                Ok(u) => {
                    &&& spec_validation_errors(response_text@).len() == 0
                    &&& final(self).state matches SessionState::TrainsListed { trains }
                    &&& spec_train_options(response_text@) == Some(spec_train_views(trains@))
                },
                Err(e) => {
                    &&& final(self).state is Failed
                    &&& match e {
                        WorkflowError::ValidationRejected(m) => m.errors.deep_view()
                            == spec_validation_errors(response_text@) && spec_validation_errors(
                            response_text@,
                        ).len() > 0,
                        WorkflowError::MalformedDocument => spec_validation_errors(
                            response_text@,
                        ).len() == 0 && spec_train_options(response_text@) is None,
                        _ => false,
                    }
                },
            },
    {
        self.state = SessionState::Failed;
        match assert_submission_errors(String::from_str(response_text)) {
            Ok(u) => {},
            Err(m) => {
                return Err(WorkflowError::ValidationRejected(m));
            },
        }
        match extract_train_options(response_text) {
            Ok(trains) => {
                self.state = SessionState::TrainsListed { trains };
                Ok(())
            },
            Err(e) => Err(e),
        }
    }

    /// The trains listed by the booking response, in row order.
    pub fn listed_trains(&self) -> (r: &Vec<TrainInfo>)
        requires
            self.state is TrainsListed,
        ensures
            *r == self.state->TrainsListed_trains,
    {
        match &self.state {
            SessionState::TrainsListed { trains } => trains,
            _ => unreached(),
        }
    }

    /// The selection of the listed train at `index`.
    pub fn select_train(&self, index: usize) -> (r: TrainSelection)
        requires
            self.state is TrainsListed,
            index < self.state->TrainsListed_trains@.len(),
        ensures
            r@.selected_train == self.state->TrainsListed_trains@[index as int]@.form_value,
            r@.form_mark.len() == 0,
    {
        match &self.state {
            SessionState::TrainsListed { trains } => gen_train_selection(trains, index),
            _ => unreached(),
        }
    }

    /// Consumes the train-selection response: a response with feedback
    /// errors rejects the run; otherwise the pre-checked member-system
    /// token is stored and the run is ready for confirmation.
    pub fn absorb_train_selection_response(&mut self, response_text: &str) -> (r: Result<
        (),
        WorkflowError,
    >)
        requires
            old(self).state is TrainsListed,
        ensures
            match r {
                Ok(u) => {
                    &&& spec_validation_errors(response_text@).len() == 0
                    &&& final(self).state matches SessionState::ConfirmationReady { member_value }
                    &&& spec_member_token(response_text@) == Some(member_value@)
                },
                Err(e) => {
                    &&& final(self).state is Failed
                    &&& match e {
                        WorkflowError::ValidationRejected(m) => m.errors.deep_view()
                            == spec_validation_errors(response_text@) && spec_validation_errors(
                            response_text@,
                        ).len() > 0,
                        WorkflowError::MalformedDocument => spec_validation_errors(
                            response_text@,
                        ).len() == 0 && spec_member_token(response_text@) is None,
                        _ => false,
                    }
                },
            },
    {
        self.state = SessionState::Failed;
        match assert_submission_errors(String::from_str(response_text)) {
            Ok(u) => {},
            Err(m) => {
                return Err(WorkflowError::ValidationRejected(m));
            },
        }
        match extract_member_token(response_text) {
            Ok(member_value) => {
                self.state = SessionState::ConfirmationReady { member_value };
                Ok(())
            },
            Err(e) => Err(e),
        }
    }

    /// The confirmation submission assembled from the given worksheet and
    /// this session's member-system token.
    pub fn ticket_confirmation_request(
        &self,
        ticket_confirmation_worksheet: &TicketConfirmationPersisted,
    ) -> (r: TicketConfirmation)
        requires
            self.state is ConfirmationReady,
        ensures
            r@.persisted == ticket_confirmation_worksheet@,
            r@.member_radio == self.state->ConfirmationReady_member_value@,
            r@.form_mark.len() == 0,
            r.id_input_radio == 0,
            r.diff_over == 1,
            r@.email.len() == 0,
            r@.agree == "on"@,
            r@.go_back_m.len() == 0,
            r@.back_home.len() == 0,
            r.tgo_error == 1,
    {
        match &self.state {
            SessionState::ConfirmationReady { member_value } => {
                let params = TicketConfirmationFormParams { member_value: member_value.clone() };
                gen_ticket_confirmation(ticket_confirmation_worksheet, &params)
            },
            _ => unreached(),
        }
    }

    /// Consumes the confirmation response: a response with feedback errors
    /// rejects the run; otherwise the confirmation summary is extracted and
    /// the run is done.
    pub fn absorb_confirmation_response(&mut self, response_text: &str) -> (r: Result<
        ConfirmationSummary,
        WorkflowError,
    >)
        requires
            old(self).state is ConfirmationReady,
        ensures
            match r {
                Ok(s) => {
                    &&& spec_validation_errors(response_text@).len() == 0
                    &&& spec_confirmation_summary(response_text@) == Some(s@)
                    &&& final(self).state is Done
                },
                Err(e) => {
                    &&& final(self).state is Failed
                    &&& match e {
                        WorkflowError::ValidationRejected(m) => m.errors.deep_view()
                            == spec_validation_errors(response_text@) && spec_validation_errors(
                            response_text@,
                        ).len() > 0,
                        WorkflowError::MalformedDocument => spec_validation_errors(
                            response_text@,
                        ).len() == 0 && spec_confirmation_summary(response_text@) is None,
                        _ => false,
                    }
                },
            },
    {
        self.state = SessionState::Failed;
        match assert_submission_errors(String::from_str(response_text)) {
            Ok(u) => {},
            Err(m) => {
                return Err(WorkflowError::ValidationRejected(m));
            },
        }
        match extract_confirmation_summary(response_text) {
            Ok(summary) => {
                self.state = SessionState::Done;
                Ok(summary)
            },
            Err(e) => Err(e),
        }
    }
}

} // verus!
