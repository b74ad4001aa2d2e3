//! Field codec: the wire-string conventions of the external booking form.
//!
//! Ticket quantities travel as a decimal count followed by a one-letter
//! category suffix (`"1F"`), and per-passenger identity fields are addressed
//! by the ticket's ordinal position among all purchased tickets, counted in
//! the canonical category order.

use vstd::prelude::*;

use crate::models::WorkflowError;
use crate::models::BookingPersisted;
use crate::models::BookingPersistedView;

verus! {

/// True when `c` is a decimal digit.
pub open spec fn spec_is_digit(c: char) -> bool {
    48 <= c as u32 <= 57
}

/// Numeric value of a decimal digit character.
pub open spec fn spec_digit_value(c: char) -> nat {
    (c as u32 - 48) as nat
}

/// True when every character of `s` is a decimal digit.
pub open spec fn spec_all_digits(s: Seq<char>) -> bool {
    forall|i: int| 0 <= i < s.len() ==> spec_is_digit(#[trigger] s[i])
}

/// The number denoted by a digit string, most significant digit first.
pub open spec fn spec_number_value(s: Seq<char>) -> nat
    decreases s.len(),
{
    if s.len() == 0 {
        0
    } else {
        spec_number_value(s.drop_last()) * 10 + spec_digit_value(s.last())
    }
}

/// The digit character for a value below ten.
pub open spec fn spec_digit_char(d: nat) -> char {
    if d == 0 {
        '0'
    } else if d == 1 {
        '1'
    } else if d == 2 {
        '2'
    } else if d == 3 {
        '3'
    } else if d == 4 {
        '4'
    } else if d == 5 {
        '5'
    } else if d == 6 {
        '6'
    } else if d == 7 {
        '7'
    } else if d == 8 {
        '8'
    } else {
        '9'
    }
}

/// The canonical decimal rendering of `n`: no sign, no leading zero except
/// for zero itself.
pub open spec fn spec_digits(n: nat) -> Seq<char>
    decreases n,
{
    if n < 10 {
        seq![spec_digit_char(n)]
    } else {
        spec_digits(n / 10) + seq![spec_digit_char(n % 10)]
    }
}

fn digit_str(d: u32) -> (r: &'static str)
    requires
        d < 10,
    ensures
        r@ == seq![spec_digit_char(d as nat)],
{
    proof {
        reveal_strlit("0");
        reveal_strlit("1");
        reveal_strlit("2");
        reveal_strlit("3");
        reveal_strlit("4");
        reveal_strlit("5");
        reveal_strlit("6");
        reveal_strlit("7");
        reveal_strlit("8");
        reveal_strlit("9");
    }
    let r = match d {
        0 => "0",
        1 => "1",
        2 => "2",
        3 => "3",
        4 => "4",
        5 => "5",
        6 => "6",
        7 => "7",
        8 => "8",
        _ => "9",
    };
    proof {
        assert(r@ =~= seq![spec_digit_char(d as nat)]);
    }
    r
}

/// Decimal rendering of `n`, with the canonical digits of `spec_digits`.
pub fn format_u32(n: u32) -> (r: String)
    ensures
        r@ == spec_digits(n as nat),
    decreases n,
{
    if n < 10 {
        let r = String::from_str(digit_str(n));
        r
    } else {
        let mut r = format_u32(n / 10);
        r.append(digit_str(n % 10));
        proof {
            assert(r@ =~= spec_digits(n as nat));
        }
        r
    }
}

/// The canonical decimal rendering of a signed value: a minus sign before
/// the digits of the magnitude when the value is negative.
pub open spec fn spec_signed_digits(n: int) -> Seq<char> {
    if n >= 0 {
        spec_digits(n as nat)
    } else {
        seq!['-'] + spec_digits((-n) as nat)
    }
}

/// Decimal rendering of a signed value.
pub fn format_i32(n: i32) -> (r: String)
    ensures
        r@ == spec_signed_digits(n as int),
{
    if n >= 0 {
        format_u32(n as u32)
    } else {
        let mut r = String::from_str("-");
        let m: u32 = (-(n as i64)) as u32;
        let digits = format_u32(m);
        r.append(digits.as_str());
        proof {
            reveal_strlit("-");
            assert(r@ =~= spec_signed_digits(n as int));
        }
        r
    }
}

/// Every canonical digit string is non-empty, consists of digits, and reads
/// back as the number it renders.
pub proof fn lemma_digits_wellformed(n: nat)
    ensures
        spec_digits(n).len() >= 1,
        spec_all_digits(spec_digits(n)),
        spec_number_value(spec_digits(n)) == n,
    decreases n,
{
    if n < 10 {
        let s = spec_digits(n);
        assert(s.len() == 1);
        assert(s.last() == spec_digit_char(n));
        assert(s.drop_last() =~= Seq::<char>::empty());
        assert(spec_number_value(Seq::<char>::empty()) == 0);
        assert(spec_number_value(s) == spec_digit_value(spec_digit_char(n)));
        assert(spec_digit_value(spec_digit_char(n)) == n);
    } else {
        lemma_digits_wellformed(n / 10);
        let s = spec_digits(n);
        let hi = spec_digits(n / 10);
        assert(s.drop_last() =~= hi);
        assert(s.last() == spec_digit_char(n % 10));
        assert(spec_digit_value(spec_digit_char(n % 10)) == n % 10);
        assert(spec_number_value(s) == (n / 10) * 10 + n % 10);
        assert((n / 10) * 10 + n % 10 == n) by {
            vstd::arithmetic::div_mod::lemma_fundamental_div_mod(n as int, 10);
        }
        assert forall|i: int| 0 <= i < s.len() implies spec_is_digit(s[i]) by {
            if i < hi.len() {
                assert(s[i] == hi[i]);
            } else {
                assert(s[i] == spec_digit_char(n % 10));
            }
        }
    }
}

/// A digit string never reads as less than any of its prefixes.
proof fn lemma_number_value_prefix(s: Seq<char>, j: int)
    requires
        0 <= j <= s.len(),
    ensures
        spec_number_value(s) >= spec_number_value(s.subrange(0, j)),
    decreases s.len() - j,
{
    if j == s.len() {
        assert(s.subrange(0, j) =~= s);
    } else {
        lemma_number_value_prefix(s, j + 1);
        assert(s.subrange(0, j + 1).drop_last() =~= s.subrange(0, j));
        assert(spec_number_value(s.subrange(0, j + 1)) == spec_number_value(s.subrange(0, j))
            * 10 + spec_digit_value(s[j]));
    }
}

/// True when `s` is a well-formed suffix-tagged count: a non-empty digit
/// prefix that fits a `u8`, followed by exactly `suffix`.
pub open spec fn spec_valid_ticket_count(s: Seq<char>, suffix: Seq<char>) -> bool {
    &&& s.len() > suffix.len()
    &&& s.subrange(s.len() - suffix.len(), s.len() as int) == suffix
    &&& spec_all_digits(s.subrange(0, s.len() - suffix.len()))
    &&& spec_number_value(s.subrange(0, s.len() - suffix.len())) <= u8::MAX
}

/// The count denoted by a well-formed suffix-tagged count string.
pub open spec fn spec_ticket_count_value(s: Seq<char>, suffix: Seq<char>) -> nat {
    spec_number_value(s.subrange(0, s.len() - suffix.len()))
}

/// Encodes a ticket quantity for the wire: the decimal count immediately
/// followed by the category suffix, as in `"1F"`.
pub fn encode_ticket_count(count: u8, category_suffix: &str) -> (r: String)
    ensures
        r@ == spec_digits(count as nat) + category_suffix@,
{
    let mut r = format_u32(count as u32);
    r.append(category_suffix);
    r
}

/// Decodes a suffix-tagged ticket count. Accepts exactly the strings whose
/// trailing characters equal `expected_suffix` and whose remaining prefix is
/// a non-empty digit string denoting a count that fits a `u8`; everything
/// else is a malformed count.
pub fn decode_ticket_count(value: &str, expected_suffix: &str) -> (r: Result<
    u8,
    WorkflowError,
>)
    ensures
        match r {
            Ok(n) => spec_valid_ticket_count(value@, expected_suffix@) && n as nat
                == spec_ticket_count_value(value@, expected_suffix@),
            Err(e) => !spec_valid_ticket_count(value@, expected_suffix@) && e
                is MalformedCount,
        },
{
    let n: usize = value.unicode_len();
    let m: usize = expected_suffix.unicode_len();
    if n < m {
        return Err(WorkflowError::MalformedCount);
    }
    let mut i: usize = 0;
    while i < m
        invariant
            m <= n,
            n == value@.len(),
            m == expected_suffix@.len(),
            i <= m,
            forall|k: int| 0 <= k < i ==> value@[n - m + k] == expected_suffix@[k],
        decreases m - i,
    {
        if value.get_char(n - m + i) != expected_suffix.get_char(i) {
            proof {
                assert(value@.subrange(n - m, n as int)[i as int] == value@[n - m + i]);
            }
            return Err(WorkflowError::MalformedCount);
        }
        i = i + 1;
    }
    proof {
        assert(value@.subrange(n - m, n as int) =~= expected_suffix@);
    }
    if n == m {
        return Err(WorkflowError::MalformedCount);
    }
    let plen: usize = n - m;
    let ghost prefix = value@.subrange(0, plen as int);
    let mut acc: u32 = 0;
    let mut j: usize = 0;
    while j < plen
        invariant
            plen == n - m,
            m < n,
            n == value@.len(),
            m == expected_suffix@.len(),
            prefix == value@.subrange(0, plen as int),
            j <= plen,
            spec_all_digits(value@.subrange(0, j as int)),
            acc as nat == spec_number_value(value@.subrange(0, j as int)),
            acc <= 255,
        decreases plen - j,
    {
        let c: char = value.get_char(j);
        let u: u32 = c as u32;
        if u < 48 || u > 57 {
            proof {
                assert(prefix[j as int] == value@[j as int]);
                assert(!spec_is_digit(prefix[j as int]));
            }
            return Err(WorkflowError::MalformedCount);
        }
        let d: u32 = u - 48;
        let acc2: u32 = acc * 10 + d;
        proof {
            assert(value@.subrange(0, j + 1).drop_last() =~= value@.subrange(0, j as int));
            assert(value@.subrange(0, j + 1).last() == value@[j as int]);
            assert(spec_number_value(value@.subrange(0, j + 1)) == acc2 as nat);
            assert forall|k: int| 0 <= k < j + 1 implies spec_is_digit(
                #[trigger] value@.subrange(0, j + 1)[k],
            ) by {
                if k < j {
                    assert(value@.subrange(0, j + 1)[k] == value@.subrange(0, j as int)[k]);
                } else {
                    assert(value@.subrange(0, j + 1)[k] == value@[j as int]);
                }
            }
        }
        if acc2 > 255 {
            proof {
                lemma_number_value_prefix(prefix, j + 1);
                assert(prefix.subrange(0, j + 1) =~= value@.subrange(0, j + 1));
                assert(spec_number_value(prefix) > 255);
            }
            return Err(WorkflowError::MalformedCount);
        }
        acc = acc2;
        j = j + 1;
    }
    proof {
        assert(value@.subrange(0, j as int) =~= prefix);
    }
    Ok(acc as u8)
}

/// The number denoted by `s`, when `s` is a non-empty digit string whose
/// value fits a `u32`.
pub open spec fn spec_parse_u32(s: Seq<char>) -> Option<u32> {
    if s.len() > 0 && spec_all_digits(s) && spec_number_value(s) <= u32::MAX {
        Some(spec_number_value(s) as u32)
    } else {
        None
    }
}

/// Parses a non-empty digit string into its value; anything else, including
/// a value too large for a `u32`, yields `None`.
pub fn parse_u32(s: &str) -> (r: Option<u32>)
    ensures
        r == spec_parse_u32(s@),
{
    let n: usize = s.unicode_len();
    if n == 0 {
        return None;
    }
    let mut acc: u64 = 0;
    let mut j: usize = 0;
    while j < n
        invariant
            n == s@.len(),
            n > 0,
            j <= n,
            spec_all_digits(s@.subrange(0, j as int)),
            acc as nat == spec_number_value(s@.subrange(0, j as int)),
            acc <= u32::MAX,
        decreases n - j,
    {
        let c: char = s.get_char(j);
        let u: u32 = c as u32;
        if u < 48 || u > 57 {
            proof {
                assert(!spec_is_digit(s@[j as int]));
            }
            return None;
        }
        let d: u64 = (u - 48) as u64;
        let acc2: u64 = acc * 10 + d;
        proof {
            assert(s@.subrange(0, j + 1).drop_last() =~= s@.subrange(0, j as int));
            assert(s@.subrange(0, j + 1).last() == s@[j as int]);
            assert(spec_number_value(s@.subrange(0, j + 1)) == acc2 as nat);
            assert forall|k: int| 0 <= k < j + 1 implies spec_is_digit(
                #[trigger] s@.subrange(0, j + 1)[k],
            ) by {
                if k < j {
                    assert(s@.subrange(0, j + 1)[k] == s@.subrange(0, j as int)[k]);
                } else {
                    assert(s@.subrange(0, j + 1)[k] == s@[j as int]);
                }
            }
        }
        if acc2 > 0xFFFF_FFFF {
            proof {
                lemma_number_value_prefix(s@, j + 1);
                assert(spec_number_value(s@) > u32::MAX);
            }
            return None;
        }
        acc = acc2;
        j = j + 1;
    }
    proof {
        assert(s@.subrange(0, j as int) =~= s@);
    }
    Some(acc as u32)
}

/// True exactly when the two strings hold the same characters.
pub fn str_equal(a: &str, b: &str) -> (r: bool)
    ensures
        r == (a@ == b@),
{
    let n: usize = a.unicode_len();
    let m: usize = b.unicode_len();
    if n != m {
        return false;
    }
    let mut i: usize = 0;
    while i < n
        invariant
            n == a@.len(),
            n == b@.len(),
            i <= n,
            forall|k: int| 0 <= k < i ==> a@[k] == b@[k],
        decreases n - i,
    {
        if a.get_char(i) != b.get_char(i) {
            return false;
        }
        i = i + 1;
    }
    proof {
        assert(a@ =~= b@);
    }
    true
}

/// Law: a round trip through the codec is the identity. For every count and
/// every category suffix, the encoded wire string `<digits><suffix>` is a
/// well-formed suffix-tagged count whose decoded value is the count itself.
pub proof fn lemma_ticket_count_round_trip(count: u8, suffix: Seq<char>)
    ensures
        spec_valid_ticket_count(spec_digits(count as nat) + suffix, suffix),
        spec_ticket_count_value(spec_digits(count as nat) + suffix, suffix) == count as nat,
{
    lemma_digits_wellformed(count as nat);
    let s = spec_digits(count as nat) + suffix;
    assert(s.subrange(s.len() - suffix.len(), s.len() as int) =~= suffix);
    assert(s.subrange(0, s.len() - suffix.len()) =~= spec_digits(count as nat));
}

/// One ticket category as the identity-key generator sees it: the category's
/// tag letter, whether each of its tickets needs an identity document, and
/// how many of its tickets were requested.
#[derive(Clone, Copy, Debug, PartialEq, Eq, Structural)]
pub struct TicketCategory {
    pub tag: char,
    pub requires_identity: bool,
    pub count: u8,
}

/// One emitted identity field: the full positional field key, the position it
/// encodes, and which ticket of which category it belongs to.
#[derive(Debug, PartialEq)]
pub struct IdentityKeySlot {
    pub key: String,
    pub position: u8,
    pub tag: char,
    pub index_in_category: u8,
}

/// Mathematical model of an `IdentityKeySlot`.
pub struct IdentityKeySlotView {
    pub key: Seq<char>,
    pub position: u8,
    pub tag: char,
    pub index_in_category: u8,
}

impl View for IdentityKeySlot {
    type V = IdentityKeySlotView;

    open spec fn view(&self) -> IdentityKeySlotView {
        IdentityKeySlotView {
            key: self.key@,
            position: self.position,
            tag: self.tag,
            index_in_category: self.index_in_category,
        }
    }
}

/// One slot of the abstract identity-key list: position among all tickets,
/// category tag, and index within the category.
pub struct IdentitySlotModel {
    pub position: nat,
    pub tag: char,
    pub index_in_category: nat,
}

/// Total number of tickets over all categories.
pub open spec fn spec_total_tickets(cats: Seq<TicketCategory>) -> nat
    decreases cats.len(),
{
    if cats.len() == 0 {
        0
    } else {
        (cats[0].count + spec_total_tickets(cats.drop_first())) as nat
    }
}

/// The identity slots owed for `cats`, walking the categories in order with a
/// running position cursor: a category that requires identity documents emits
/// one slot per ticket at consecutive positions, and every category advances
/// the cursor by its count, whether or not it emitted slots.
pub open spec fn spec_identity_slots(cats: Seq<TicketCategory>, cursor: nat) -> Seq<
    IdentitySlotModel,
>
    decreases cats.len(),
{
    if cats.len() == 0 {
        Seq::empty()
    } else {
        let c = cats[0];
        let here = if c.requires_identity {
            Seq::new(
                c.count as nat,
                |i: int|
                    (IdentitySlotModel {
                        position: (cursor + i) as nat,
                        tag: c.tag,
                        index_in_category: i as nat,
                    }),
            )
        } else {
            Seq::empty()
        };
        here + spec_identity_slots(cats.drop_first(), (cursor + c.count) as nat)
    }
}

/// The full positional field key addressing the identity input at `position`.
pub open spec fn spec_supplement_key(position: nat) -> Seq<char> {
    "TicketPassengerInfoInputPanel:passengerDataView:"@ + spec_digits(position)
        + ":passengerDataView2:passengerDataIdNumber"@
}

/// True when the emitted slot `v` realises the abstract slot `m`.
pub open spec fn spec_slot_matches(v: IdentityKeySlotView, m: IdentitySlotModel) -> bool {
    &&& v.position as nat == m.position
    &&& v.tag == m.tag
    &&& v.index_in_category as nat == m.index_in_category
    &&& v.key == spec_supplement_key(m.position)
}

/// The positional field key for the identity input at position `id`.
pub fn format_supplement_ids_key(id: u8) -> (r: String)
    ensures
        r@ == spec_supplement_key(id as nat),
{
    let mut r = String::from_str("TicketPassengerInfoInputPanel:passengerDataView:");
    let digits = format_u32(id as u32);
    r.append(digits.as_str());
    r.append(":passengerDataView2:passengerDataIdNumber");
    r
}

fn push_identity_keys(
    categories: &Vec<TicketCategory>,
    k: usize,
    cursor: u8,
    out: &mut Vec<IdentityKeySlot>,
)
    requires
        k <= categories@.len(),
        cursor as nat + spec_total_tickets(categories@.skip(k as int)) <= u8::MAX,
    ensures
        final(out)@.len() == old(out)@.len() + spec_identity_slots(
            categories@.skip(k as int),
            cursor as nat,
        ).len(),
        forall|i: int| 0 <= i < old(out)@.len() ==> final(out)@[i] == old(out)@[i],
        forall|i: int|
            old(out)@.len() <= i < final(out)@.len() ==> spec_slot_matches(
                #[trigger] final(out)@[i]@,
                spec_identity_slots(categories@.skip(k as int), cursor as nat)[i - old(
                    out,
                )@.len()],
            ),
    decreases categories@.len() - k,
{
    let ghost rest = categories@.skip(k as int);
    if k == categories.len() {
        proof {
            assert(rest =~= Seq::<TicketCategory>::empty());
        }
        return ;
    }
    let c = categories[k];
    proof {
        assert(rest[0] == c);
        assert(rest.drop_first() =~= categories@.skip(k as int + 1));
    }
    let base: usize = out.len();
    if c.requires_identity {
        let mut i: u8 = 0;
        while i < c.count
            invariant
                i <= c.count,
                base == old(out)@.len(),
                cursor as nat + spec_total_tickets(rest) <= u8::MAX,
                rest == categories@.skip(k as int),
                rest.len() > 0,
                rest[0] == c,
                c.requires_identity,
                out@.len() == base + i as nat,
                forall|j: int| 0 <= j < base ==> out@[j] == old(out)@[j],
                forall|j: int|
                    0 <= j < i ==> spec_slot_matches(
                        #[trigger] out@[base + j]@,
                        spec_identity_slots(rest, cursor as nat)[j],
                    ),
            decreases c.count - i,
        {
            proof {
                assert(spec_total_tickets(rest) == c.count + spec_total_tickets(
                    rest.drop_first(),
                ));
                assert(cursor + i < 256);
            }
            let position: u8 = cursor + i;
            let key = format_supplement_ids_key(position);
            out.push(
                IdentityKeySlot { key, position, tag: c.tag, index_in_category: i },
            );
            i = i + 1;
        }
    }
    let ghost mid = out@;
    let ghost herelen: int = if c.requires_identity {
        c.count as int
    } else {
        0
    };
    proof {
        assert(spec_total_tickets(rest) == c.count + spec_total_tickets(rest.drop_first()));
        assert(mid.len() == base + herelen);
        assert(forall|j: int|
            0 <= j < herelen ==> spec_slot_matches(
                #[trigger] mid[base + j]@,
                spec_identity_slots(rest, cursor as nat)[j],
            ));
    }
    push_identity_keys(categories, k + 1, cursor + c.count, out);
    proof {
        let all = spec_identity_slots(rest, cursor as nat);
        let tail = spec_identity_slots(rest.drop_first(), (cursor + c.count) as nat);
        assert(all.len() == herelen + tail.len());
        assert forall|i: int| old(out)@.len() <= i < out@.len() implies spec_slot_matches(
            #[trigger] out@[i]@,
            all[i - old(out)@.len()],
        ) by {
            let rel = i - old(out)@.len();
            if rel < herelen {
                assert(out@[i] == mid[i]);
                assert(spec_slot_matches(mid[base + rel]@, all[rel]));
            } else {
                assert(all[rel] == tail[rel - herelen]);
            }
        }
    }
}

/// Generates the ordered list of positional identity-field keys owed for the
/// given categories, walked in the given order. The position cursor starts at
/// zero and advances by every category's count; only categories that require
/// an identity document emit keys.
pub fn generate_identity_keys(categories: &Vec<TicketCategory>) -> (r: Vec<IdentityKeySlot>)
    requires
        spec_total_tickets(categories@) <= u8::MAX,
    ensures
        r@.len() == spec_identity_slots(categories@, 0).len(),
        forall|i: int|
            0 <= i < r@.len() ==> spec_slot_matches(
                #[trigger] r@[i]@,
                spec_identity_slots(categories@, 0)[i],
            ),
{
    let mut out: Vec<IdentityKeySlot> = Vec::new();
    proof {
        assert(categories@.skip(0) =~= categories@);
    }
    push_identity_keys(categories, 0, 0, &mut out);
    out
}

/// Law: the identity slots of a category list split at any point `k` into
/// the slots of the first `k` categories and the slots of the remaining
/// ones, with the cursor advanced by the total ticket count of the first
/// `k` — so a slot's position depends on the counts of every earlier
/// category, whether or not those categories emit keys.
pub proof fn lemma_identity_slots_split(cats: Seq<TicketCategory>, k: int, cursor: nat)
    requires
        0 <= k <= cats.len(),
    ensures
        spec_identity_slots(cats, cursor) == spec_identity_slots(cats.subrange(0, k), cursor)
            + spec_identity_slots(
            cats.skip(k),
            (cursor + spec_total_tickets(cats.subrange(0, k))) as nat,
        ),
    decreases k,
{
    if k == 0 {
        assert(cats.subrange(0, 0) =~= Seq::<TicketCategory>::empty());
        assert(cats.skip(0) =~= cats);
        assert(spec_identity_slots(cats.subrange(0, 0), cursor) =~= Seq::<
            IdentitySlotModel,
        >::empty());
        assert(spec_identity_slots(cats.subrange(0, 0), cursor) + spec_identity_slots(
            cats.skip(0),
            (cursor + spec_total_tickets(cats.subrange(0, 0))) as nat,
        ) =~= spec_identity_slots(cats, cursor));
    } else {
        let c0 = cats[0];
        let rest = cats.drop_first();
        let next = (cursor + c0.count) as nat;
        lemma_identity_slots_split(rest, k - 1, next);
        let pre = cats.subrange(0, k);
        assert(pre[0] == c0);
        assert(pre.drop_first() =~= rest.subrange(0, k - 1));
        assert(cats.skip(k) =~= rest.skip(k - 1));
        assert(spec_total_tickets(pre) == c0.count + spec_total_tickets(rest.subrange(0, k - 1)));
        assert(spec_identity_slots(cats, cursor) == spec_identity_slots(pre, cursor)
            + spec_identity_slots(
            cats.skip(k),
            (cursor + spec_total_tickets(pre)) as nat,
        )) by {
            assert(spec_identity_slots(rest, next) == spec_identity_slots(
                rest.subrange(0, k - 1),
                next,
            ) + spec_identity_slots(
                rest.skip(k - 1),
                (next + spec_total_tickets(rest.subrange(0, k - 1))) as nat,
            ));
            assert(spec_identity_slots(cats, cursor) =~= spec_identity_slots(pre, cursor)
                + spec_identity_slots(
                cats.skip(k),
                (cursor + spec_total_tickets(pre)) as nat,
            ));
        }
    }
}

/// Law: a category that requires identity documents has its slots at
/// consecutive positions starting at the total ticket count of all earlier
/// categories — the invariant the external system's positional field names
/// rest on.
pub proof fn lemma_identity_positions(cats: Seq<TicketCategory>, k: int, i: int)
    requires
        0 <= k < cats.len(),
        cats[k].requires_identity,
        0 <= i < cats[k].count,
    ensures
        0 <= spec_identity_slots(cats.subrange(0, k), 0).len() + i < spec_identity_slots(
            cats,
            0,
        ).len(),
        spec_identity_slots(cats, 0)[spec_identity_slots(cats.subrange(0, k), 0).len() + i]
            == (IdentitySlotModel {
            position: (spec_total_tickets(cats.subrange(0, k)) + i) as nat,
            tag: cats[k].tag,
            index_in_category: i as nat,
        }),
{
    lemma_identity_slots_split(cats, k, 0);
    let suf = cats.skip(k);
    assert(suf[0] == cats[k]);
    let here = Seq::new(
        cats[k].count as nat,
        |j: int|
            (IdentitySlotModel {
                position: (spec_total_tickets(cats.subrange(0, k)) + j) as nat,
                tag: cats[k].tag,
                index_in_category: j as nat,
            }),
    );
    assert(spec_identity_slots(suf, spec_total_tickets(cats.subrange(0, k))) == here
        + spec_identity_slots(
        suf.drop_first(),
        (spec_total_tickets(cats.subrange(0, k)) + cats[k].count) as nat,
    ));
    assert(spec_identity_slots(cats, 0)[spec_identity_slots(cats.subrange(0, k), 0).len() + i]
        == here[i]);
}

/// The five fixed ticket categories of a booking, in the canonical order the
/// external system counts positions by: adult, child, disabled, elder,
/// college. Only the disabled and elder categories require an identity
/// document per ticket.
pub open spec fn spec_booking_categories(b: BookingPersistedView) -> Seq<TicketCategory> {
    seq![
        (TicketCategory { tag: 'F', requires_identity: false, count: b.adult_ticket_num }),
        (TicketCategory { tag: 'H', requires_identity: false, count: b.child_ticket_num }),
        (TicketCategory { tag: 'W', requires_identity: true, count: b.disabled_ticket_num }),
        (TicketCategory { tag: 'E', requires_identity: true, count: b.elder_ticket_num }),
        (TicketCategory { tag: 'P', requires_identity: false, count: b.college_ticket_num }),
    ]
}

/// The canonical category list of a booking, as `spec_booking_categories`
/// orders it.
pub fn booking_ticket_categories(b: &BookingPersisted) -> (r: Vec<TicketCategory>)
    ensures
        r@ == spec_booking_categories(b@),
{
    let mut r: Vec<TicketCategory> = Vec::new();
    r.push(TicketCategory { tag: 'F', requires_identity: false, count: b.adult_ticket_num });
    r.push(TicketCategory { tag: 'H', requires_identity: false, count: b.child_ticket_num });
    r.push(TicketCategory { tag: 'W', requires_identity: true, count: b.disabled_ticket_num });
    r.push(TicketCategory { tag: 'E', requires_identity: true, count: b.elder_ticket_num });
    r.push(TicketCategory { tag: 'P', requires_identity: false, count: b.college_ticket_num });
    proof {
        assert(r@ =~= spec_booking_categories(b@));
    }
    r
}

} // verus!
