use vstd::prelude::*;

verus! {

/// The fields of an interaction that Discord sends.
pub struct InteractionData {
    pub application_id: String,
    pub _type: u64,
    pub id: String,
    pub token: String,
}

/// The text that `{:?}` writes for a string: the string in double quotes, with
/// its special characters escaped.
pub uninterp spec fn str_debug(s: Seq<char>) -> Seq<char>;

/// `<str as Debug>::fmt`, through `format!`.
#[verifier::external_body]
fn debug_quoted(s: &str) -> (r: String)
    ensures
        r@ == str_debug(s@),
{
    format!("{:?}", s)
}

/// The decimal digits of `n`, as characters.
pub open spec fn decimal_text(n: nat) -> Seq<char>
    decreases n,
{
    if n < 10 {
        seq![(48 + n) as char]
    } else {
        decimal_text(n / 10) + seq![(48 + n % 10) as char]
    }
}

fn digit_text(d: u64) -> (r: &'static str)
    requires
        d < 10,
    ensures
        r@ == seq![(48 + d) as char],
{
    if d == 0 {
        proof { reveal_strlit("0"); }
        "0"
    } else if d == 1 {
        proof { reveal_strlit("1"); }
        "1"
    } else if d == 2 {
        proof { reveal_strlit("2"); }
        "2"
    } else if d == 3 {
        proof { reveal_strlit("3"); }
        "3"
    } else if d == 4 {
        proof { reveal_strlit("4"); }
        "4"
    } else if d == 5 {
        proof { reveal_strlit("5"); }
        "5"
    } else if d == 6 {
        proof { reveal_strlit("6"); }
        "6"
    } else if d == 7 {
        proof { reveal_strlit("7"); }
        "7"
    } else if d == 8 {
        proof { reveal_strlit("8"); }
        "8"
    } else {
        proof { reveal_strlit("9"); }
        "9"
    }
}

fn push_decimal_text(s: &mut String, n: u64)
    ensures
        final(s)@ == old(s)@ + decimal_text(n as nat),
    decreases n,
{
    if n < 10 {
        s.append(digit_text(n));
    } else {
        push_decimal_text(s, n / 10);
        s.append(digit_text(n % 10));
    }
}

/// What `fmt` writes for these field values.
pub open spec fn interaction_data_text(
    application_id: Seq<char>,
    _type: nat,
    id: Seq<char>,
    token: Seq<char>,
) -> Seq<char> {
    "InteractionData { application_id: "@ + str_debug(application_id) + ", _type: "@ + decimal_text(_type)
        + ", id: "@ + str_debug(id) + ", token: "@ + str_debug(token) + " }"@
}

impl InteractionData {
    /// The `Debug` text of the structure: its name and each field, strings quoted.
    pub fn fmt(&self) -> (r: String)
        ensures
            r@ == interaction_data_text(
                self.application_id@,
                self._type as nat,
                self.id@,
                self.token@,
            ),
    {
        let mut s = String::new();
        s.append("InteractionData { application_id: ");
        s.append(debug_quoted(self.application_id.as_str()).as_str());
        s.append(", _type: ");
        push_decimal_text(&mut s, self._type);
        s.append(", id: ");
        s.append(debug_quoted(self.id.as_str()).as_str());
        s.append(", token: ");
        s.append(debug_quoted(self.token.as_str()).as_str());
        s.append(" }");
        s
    }
}

} // verus!
