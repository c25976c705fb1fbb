//! The decision at the heart of the optional HTTP Basic Authentication
//! check: whether an Authorization header matches the configured `user:pass`
//! line. Reading headers and answering 401 live outside the core.

use vstd::prelude::*;
use vstd::string::StringExecFns;
use crate::text::push_char;

verus! {

/// The authenticated user attached to a request once the check succeeds.
#[derive(Clone, Debug)]
pub struct BasicUser(pub String);

/// What standard-alphabet base64 decoding yields for a given text: a
/// function of the characters alone; absent when the text is not valid
/// base64.
pub uninterp spec fn b64_decode_of(s: Seq<char>) -> Option<Seq<u8>>;

/// What UTF-8 decoding yields for given bytes: a function of the bytes
/// alone; absent when they are not valid UTF-8.
pub uninterp spec fn utf8_of(b: Seq<u8>) -> Option<Seq<char>>;

/// Relies on base64's `Engine::decode` with the standard padded alphabet:
/// the decoded bytes depend on the input text alone.
#[verifier::external_body]
fn decode_base64(s: &str) -> (r: Option<Vec<u8>>)
    ensures
        match r {
            Option::Some(v) => b64_decode_of(s@) == Some(v@),
            Option::None => b64_decode_of(s@) is None,
        },
{
    match base64::Engine::decode(&base64::engine::general_purpose::STANDARD, s) {
        Ok(v) => Some(v),
        Err(_) => None,
    }
}

/// Relies on `String::from_utf8`: the decoded characters depend on the
/// bytes alone.
#[verifier::external_body]
fn utf8_to_string(bytes: Vec<u8>) -> (r: Option<String>)
    ensures
        match r {
            Option::Some(t) => utf8_of(bytes@) == Some(t@),
            Option::None => utf8_of(bytes@) is None,
        },
{
    match String::from_utf8(bytes) {
        Ok(t) => Some(t),
        Err(_) => None,
    }
}

/// Whether an Authorization header value satisfies the expected `user:pass`
/// line: it must carry the `Basic ` scheme and decode, through base64 and
/// then UTF-8, to exactly that line.
pub open spec fn spec_auth_ok(expected: Seq<char>, header: Option<Seq<char>>) -> bool {
    match header {
        Option::None => false,
        Option::Some(h) => h.len() >= 6 && h.take(6) == "Basic "@ && match b64_decode_of(
            h.skip(6),
        ) {
            Option::None => false,
            Option::Some(bytes) => match utf8_of(bytes) {
                Option::None => false,
                Option::Some(text) => text == expected,
            },
        },
    }
}

/// Decides Basic Authentication for one request, given the
/// configured `user:pass` line and the request's Authorization header.
pub fn check_basic_auth(expected: &str, header: Option<&str>) -> (ok: bool)
    ensures
        ok == spec_auth_ok(
            expected@,
            match header {
                Option::None => None,
                Option::Some(h) => Some(h@),
            },
        ),
{
    proof {
        reveal_strlit("Basic ");
    }
    let h = match header {
        Option::None => {
            return false;
        },
        Option::Some(h) => h,
    };
    let mut scheme_ok = true;
    let mut rest = String::new();
    let mut phase: u8 = 0;
    for c in it: h.chars()
        invariant
            it.seq() == h@,
            phase == (if it.index() < 6 {
                it.index() as int
            } else {
                6
            }),
            "Basic "@.len() == 6,
            scheme_ok <==> (forall|j: int|
                0 <= j < phase ==> h@[j] == #[trigger] "Basic "@[j]),
            rest@ == (if it.index() <= 6 {
                Seq::<char>::empty()
            } else {
                h@.subrange(6, it.index() as int)
            }),
    {
        let ghost i = it.index() as int;
        proof {
            reveal_strlit("Basic ");
            assert(c == h@[i]);
        }
        if phase < 6 {
            let expected_char = match phase {
                0 => 'B',
                1 => 'a',
                2 => 's',
                3 => 'i',
                4 => 'c',
                _ => ' ',
            };
            proof {
                assert(expected_char == "Basic "@[i]);
            }
            if c != expected_char {
                scheme_ok = false;
            }
            phase = phase + 1;
        } else {
            push_char(&mut rest, c);
            proof {
                assert(rest@ =~= h@.subrange(6, i + 1));
            }
        }
    }
    if phase < 6 || !scheme_ok {
        proof {
            reveal_strlit("Basic ");
            if phase >= 6 {
                assert(!(h@.take(6) =~= "Basic "@));
            } else {
                assert(h@.len() < 6);
            }
        }
        return false;
    }
    proof {
        assert(h@.take(6) =~= "Basic "@);
        assert(rest@ =~= h@.skip(6));
    }
    match decode_base64(rest.as_str()) {
        Option::None => false,
        Option::Some(bytes) => match utf8_to_string(bytes) {
            Option::None => false,
            Option::Some(text) => {
                let exp = expected.to_owned();
                text.eq(&exp)
            },
        },
    }
}

/// Whether a request passes the optional Basic Authentication guard: with
/// no credentials configured every request passes; with credentials, only a
/// header that satisfies them does.
pub fn auth_allows(expected: Option<&str>, header: Option<&str>) -> (ok: bool)
    ensures
        ok == match expected {
            Option::None => true,
            Option::Some(e) => spec_auth_ok(
                e@,
                match header {
                    Option::None => None,
                    Option::Some(h) => Some(h@),
                },
            ),
        },
{
    match expected {
        Option::None => true,
        Option::Some(e) => check_basic_auth(e, header),
    }
}

/// The user name in a `user:pass` line: everything before the first `:`,
/// or empty when the line has none.
pub open spec fn spec_before_colon(s: Seq<char>) -> Seq<char>
    decreases s.len(),
{
    if s.len() == 0 {
        Seq::empty()
    } else if s[0] == ':' {
        Seq::empty()
    } else {
        seq![s[0]] + spec_before_colon(s.drop_first())
    }
}

/// The user a configured `user:pass` line names; a line without a colon
/// names nobody.
pub open spec fn spec_extract_user(s: Seq<char>) -> Seq<char> {
    if s.contains(':') {
        spec_before_colon(s)
    } else {
        Seq::empty()
    }
}

/// With no colon among the first `i` characters and a colon at `i`, the part
/// before the colon is exactly the first `i` characters.
proof fn lemma_before_colon_take(s: Seq<char>, i: int)
    requires
        0 <= i < s.len(),
        forall|j: int| 0 <= j < i ==> s[j] != ':',
        s[i] == ':',
    ensures
        spec_before_colon(s) == s.take(i),
    decreases i,
{
    if i == 0 {
        assert(spec_before_colon(s) =~= s.take(0));
    } else {
        assert(s[0] != ':');
        let d = s.drop_first();
        assert forall|j: int| 0 <= j < i - 1 implies d[j] != ':' by {
            assert(d[j] == s[j + 1]);
        }
        assert(d[i - 1] == ':');
        lemma_before_colon_take(d, i - 1);
        assert(s.take(i) =~= seq![s[0]] + d.take(i - 1));
    }
}

/// Takes the user half out of a `user:pass` line.
pub fn extract_user(userpass: &str) -> (user: String)
    ensures
        user@ == spec_extract_user(userpass@),
{
    let mut user = String::new();
    let mut seen = false;
    for c in it: userpass.chars()
        invariant
            it.seq() == userpass@,
            !seen ==> user@ == userpass@.take(it.index() as int) && (forall|j: int|
                0 <= j < it.index() ==> userpass@[j] != ':'),
            seen ==> userpass@.contains(':') && user@ == spec_before_colon(userpass@),
    {
        let ghost i = it.index() as int;
        proof {
            assert(c == userpass@[i]);
        }
        if !seen {
            if c == ':' {
                seen = true;
                proof {
                    assert(userpass@.contains(':'));
                    lemma_before_colon_take(userpass@, i);
                }
            } else {
                push_char(&mut user, c);
                proof {
                    assert(user@ =~= userpass@.take(i + 1));
                }
            }
        }
    }
    if seen {
        user
    } else {
        proof {
            assert(userpass@.take(userpass@.len() as int) =~= userpass@);
            if userpass@.contains(':') {
                let k = choose|k: int|
                    0 <= k < userpass@.len() && userpass@[k] == ':';
                assert(userpass@[k] != ':');
            }
        }
        String::new()
    }
}

} // verus!
