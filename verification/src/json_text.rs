//! JSON text of the flat objects this library signs: members in a fixed order, with
//! string escaping left to `serde_json`.
use vstd::prelude::*;

verus! {

/// A member value of a flat JSON object.
#[derive(Debug, Clone, PartialEq)]
pub enum JsonValue {
    Str(String),
    Int(i64),
    Bool(bool),
}

/// A member value as plain values.
pub enum JsonValueView {
    Str(Seq<char>),
    Int(i64),
    Bool(bool),
}

impl View for JsonValue {
    type V = JsonValueView;

    open spec fn view(&self) -> JsonValueView {
        match self {
            JsonValue::Str(s) => JsonValueView::Str(s@),
            JsonValue::Int(i) => JsonValueView::Int(*i),
            JsonValue::Bool(b) => JsonValueView::Bool(*b),
        }
    }
}

/// Members as plain values: each key's text and its value's view.
pub open spec fn members_view(members: Seq<(String, JsonValue)>) -> Seq<(Seq<char>, JsonValueView)> {
    members.map_values(|m: (String, JsonValue)| (m.0@, m.1@))
}

/// A text result seen as plain values.
pub open spec fn text_view(r: Result<String, String>) -> Result<Seq<char>, Seq<char>> {
    match r {
        Ok(t) => Ok(t@),
        Err(m) => Err(m@),
    }
}

/// The JSON text `serde_json::to_string` writes for the string `s`, or the rendered
/// error.
pub uninterp spec fn json_string_text(s: Seq<char>) -> Result<Seq<char>, Seq<char>>;

/// `serde_json::to_string` of a string, the error rendered with `to_string`. Claims: the
/// result is the named text of `s`, and it is text: a string serialises into the
/// in-memory buffer without error.
#[verifier::external_body]
fn json_string(s: &str) -> (res: Result<String, String>)
    ensures
        text_view(res) == json_string_text(s@),
        res is Ok,
{
    match serde_json::to_string(s) {
        Ok(t) => Ok(t),
        Err(e) => Err(e.to_string()),
    }
}

/// The character of the decimal digit `d`.
pub open spec fn digit_char(d: nat) -> char {
    (48 + d) as char
}

/// The decimal digits of `n`, without leading zeros.
pub open spec fn nat_digits(n: nat) -> Seq<char>
    decreases n,
{
    if n < 10 {
        seq![digit_char(n)]
    } else {
        nat_digits(n / 10).push(digit_char(n % 10))
    }
}

/// The decimal text of `i`, with a leading '-' when negative.
pub open spec fn decimal_text(i: int) -> Seq<char> {
    if i < 0 {
        seq!['-'] + nat_digits((-i) as nat)
    } else {
        nat_digits(i as nat)
    }
}

/// The JSON text of a member value, or the error that writing it gives.
pub open spec fn value_text(v: JsonValueView) -> Result<Seq<char>, Seq<char>> {
    match v {
        JsonValueView::Str(s) => json_string_text(s),
        JsonValueView::Int(i) => Ok(decimal_text(i as int)),
        JsonValueView::Bool(b) => Ok(if b { "true"@ } else { "false"@ }),
    }
}

/// The member `"key":value`.
pub open spec fn member_text(key: Seq<char>, value: Seq<char>) -> Seq<char> {
    seq!['"'] + key + seq!['"', ':'] + value
}

/// The members of a flat object, comma separated, or the first error met.
pub open spec fn members_text(members: Seq<(Seq<char>, JsonValueView)>) -> Result<Seq<char>, Seq<char>>
    decreases members.len(),
{
    if members.len() == 0 {
        Ok(Seq::<char>::empty())
    } else {
        match members_text(members.drop_last()) {
            Err(m) => Err(m),
            Ok(prefix) => match value_text(members.last().1) {
                Err(m) => Err(m),
                Ok(v) => Ok(
                    prefix + (if members.len() > 1 { seq![','] } else { Seq::<char>::empty() }) + member_text(
                        members.last().0,
                        v,
                    ),
                ),
            },
        }
    }
}

/// The flat object `{...}` with these members in this order, or the first error met.
pub open spec fn object_text(members: Seq<(Seq<char>, JsonValueView)>) -> Result<Seq<char>, Seq<char>> {
    match members_text(members) {
        Err(m) => Err(m),
        Ok(t) => Ok(seq!['{'] + t + seq!['}']),
    }
}

/// The text of the decimal digit `d`.
fn digit_str(d: u64) -> (s: &'static str)
    requires
        d < 10,
    ensures
        s@ == seq![digit_char(d as nat)],
{
    proof {
        reveal_strlit("0");
        reveal_strlit("1");
        reveal_strlit("2");
        reveal_strlit("3");
        reveal_strlit("4");
        reveal_strlit("5");
        reveal_strlit("6");
        reveal_strlit("7");
        reveal_strlit("8");
        reveal_strlit("9");
    }
    if d == 0 {
        "0"
    } else if d == 1 {
        "1"
    } else if d == 2 {
        "2"
    } else if d == 3 {
        "3"
    } else if d == 4 {
        "4"
    } else if d == 5 {
        "5"
    } else if d == 6 {
        "6"
    } else if d == 7 {
        "7"
    } else if d == 8 {
        "8"
    } else {
        "9"
    }
}

/// Appends the decimal digits of `n` to `out`.
fn push_digits(out: &mut String, n: u64)
    ensures
        final(out)@ == old(out)@ + nat_digits(n as nat),
    decreases n,
{
    if n < 10 {
        out.append(digit_str(n));
    } else {
        push_digits(out, n / 10);
        out.append(digit_str(n % 10));
        proof {
            assert(nat_digits(n as nat) == nat_digits((n / 10) as nat).push(digit_char((n % 10) as nat)));
        }
    }
}

/// The decimal text of `i`, as `serde_json` writes integers.
pub fn decimal_string(i: i64) -> (s: String)
    ensures
        s@ == decimal_text(i as int),
{
    let mut s = String::new();
    if i < 0 {
        proof {
            reveal_strlit("-");
        }
        s.append("-");
        let magnitude: u64 = if i == i64::MIN {
            9223372036854775808u64
        } else {
            (-i) as u64
        };
        push_digits(&mut s, magnitude);
    } else {
        push_digits(&mut s, i as u64);
    }
    s
}

/// The JSON text of one member value.
fn value_string(v: &JsonValue) -> (res: Result<String, String>)
    ensures
        text_view(res) == value_text(v@),
        res is Ok,
{
    match v {
        JsonValue::Str(s) => json_string(s.as_str()),
        JsonValue::Int(i) => Ok(decimal_string(*i)),
        JsonValue::Bool(b) => {
            proof {
                reveal_strlit("true");
                reveal_strlit("false");
            }
            if *b {
                Ok(String::from_str("true"))
            } else {
                Ok(String::from_str("false"))
            }
        },
    }
}

/// The flat JSON object with these members in this order.
pub fn object_string(members: &Vec<(String, JsonValue)>) -> (res: Result<String, String>)
    ensures
        text_view(res) == object_text(members_view(members@)),
        res is Ok,
{
    proof {
        reveal_strlit("{");
        reveal_strlit("}");
    }
    let mut body = String::new();
    let mut i: usize = 0;
    while i < members.len()
        invariant
            i <= members@.len(),
            members_text(members_view(members@).take(i as int)) == Ok::<Seq<char>, Seq<char>>(body@),
        decreases members@.len() - i,
    {
        proof {
            reveal_strlit(",");
            reveal_strlit("\"");
            reveal_strlit("\":");
        }
        let ghost mv = members_view(members@);
        let ghost prefix = mv.take(i as int);
        assert(mv.take(i + 1).drop_last() =~= prefix);
        assert(mv[i as int] == (members@[i as int].0@, members@[i as int].1@));
        let ghost old_body = body@;
        let v = match value_string(&members[i].1) {
            Ok(v) => v,
            Err(m) => {
                proof {
                    assert(mv.take(i + 1).last() == mv[i as int]);
                    assert(members_text(mv.take(i + 1)) == Err::<Seq<char>, Seq<char>>(m@));
                    lemma_members_error_persists(mv, i as int + 1);
                }
                return Err(m);
            },
        };
        if i > 0 {
            body.append(",");
        }
        let ghost with_sep = body@;
        assert(with_sep =~= old_body + (if i + 1 > 1 { seq![','] } else { Seq::<char>::empty() }));
        body.append("\"");
        body.append(members[i].0.as_str());
        body.append("\":");
        body.append(v.as_str());
        proof {
            assert(body@ =~= with_sep + member_text(members@[i as int].0@, v@));
            assert(mv.take(i + 1).last() == mv[i as int]);
        }
        i += 1;
    }
    assert(members_view(members@).take(members@.len() as int) =~= members_view(members@));
    let mut s = String::from_str("{");
    s.append(body.as_str());
    s.append("}");
    assert(s@ =~= seq!['{'] + body@ + seq!['}']);
    Ok(s)
}

/// An error met among the first `n` members is the error of the whole list.
proof fn lemma_members_error_persists(members: Seq<(Seq<char>, JsonValueView)>, n: int)
    requires
        0 < n <= members.len(),
        members_text(members.take(n)) is Err,
    ensures
        members_text(members) == members_text(members.take(n)),
    decreases members.len() - n,
{
    if n == members.len() {
        assert(members.take(n) =~= members);
    } else {
        assert(members.take(n + 1).drop_last() =~= members.take(n));
        lemma_members_error_persists(members, n + 1);
    }
}

} // verus!
