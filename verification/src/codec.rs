//! Wire encodings: the broadcast event as JSON text, and the canvas
//! bitmap as base64 text for snapshot transmission.

use vstd::prelude::*;
use vstd::string::StringExecFns;

use crate::models::PlaceUpdate;

verus! {

/// The decimal digits of `n`, most significant first.
pub open spec fn spec_digit(d: int) -> char {
    if d == 0 {
        '0'
    } else if d == 1 {
        '1'
    } else if d == 2 {
        '2'
    } else if d == 3 {
        '3'
    } else if d == 4 {
        '4'
    } else if d == 5 {
        '5'
    } else if d == 6 {
        '6'
    } else if d == 7 {
        '7'
    } else if d == 8 {
        '8'
    } else {
        '9'
    }
}

pub open spec fn spec_dec(n: int) -> Seq<char>
    recommends
        0 <= n,
    decreases n,
{
    if n < 10 {
        seq![spec_digit(n)]
    } else {
        spec_dec(n / 10).push(spec_digit(n % 10))
    }
}

/// The JSON text of one broadcast event, exactly as a viewer receives it.
pub open spec fn spec_event_json(x: u32, y: u32, color: u8) -> Seq<char> {
    "{\"loc\":["@ + spec_dec(x as int) + ","@ + spec_dec(y as int) + "],\"color\":"@ + spec_dec(
        color as int,
    ) + "}"@
}

fn push_digit(s: &mut String, d: u32)
    requires
        d < 10,
    ensures
        final(s)@ == old(s)@ + seq![spec_digit(d as int)],
{
    match d {
        0 => {
            s.append("0");
            proof {
                reveal_strlit("0");
                assert(s@ =~= old(s)@ + seq![spec_digit(0)]);
            }
        },
        1 => {
            s.append("1");
            proof {
                reveal_strlit("1");
                assert(s@ =~= old(s)@ + seq![spec_digit(1)]);
            }
        },
        2 => {
            s.append("2");
            proof {
                reveal_strlit("2");
                assert(s@ =~= old(s)@ + seq![spec_digit(2)]);
            }
        },
        3 => {
            s.append("3");
            proof {
                reveal_strlit("3");
                assert(s@ =~= old(s)@ + seq![spec_digit(3)]);
            }
        },
        4 => {
            s.append("4");
            proof {
                reveal_strlit("4");
                assert(s@ =~= old(s)@ + seq![spec_digit(4)]);
            }
        },
        5 => {
            s.append("5");
            proof {
                reveal_strlit("5");
                assert(s@ =~= old(s)@ + seq![spec_digit(5)]);
            }
        },
        6 => {
            s.append("6");
            proof {
                reveal_strlit("6");
                assert(s@ =~= old(s)@ + seq![spec_digit(6)]);
            }
        },
        7 => {
            s.append("7");
            proof {
                reveal_strlit("7");
                assert(s@ =~= old(s)@ + seq![spec_digit(7)]);
            }
        },
        8 => {
            s.append("8");
            proof {
                reveal_strlit("8");
                assert(s@ =~= old(s)@ + seq![spec_digit(8)]);
            }
        },
        _ => {
            s.append("9");
            proof {
                reveal_strlit("9");
                assert(s@ =~= old(s)@ + seq![spec_digit(9)]);
            }
        },
    }
}

fn push_dec(s: &mut String, n: u32)
    ensures
        final(s)@ == old(s)@ + spec_dec(n as int),
    decreases n,
{
    if n >= 10 {
        proof {
            assert(n / 10 < n) by (nonlinear_arith)
                requires
                    n >= 10,
            ;
        }
        push_dec(s, n / 10);
    }
    push_digit(s, n % 10);
    proof {
        if n < 10 {
            assert(s@ =~= old(s)@ + spec_dec(n as int));
        } else {
            assert(spec_dec(n as int) =~= spec_dec(n as int / 10) + seq![
                spec_digit(n as int % 10),
            ]);
            assert(s@ =~= old(s)@ + spec_dec(n as int));
        }
    }
}

/// The serialized broadcast payload: `{"loc":[x,y],"color":c}`, built
/// once per publish and delivered verbatim to every viewer.
pub fn encode_event(event: &PlaceUpdate) -> (s: String)
    ensures
        s@ == spec_event_json(event.loc.0, event.loc.1, event.color),
{
    let mut s = String::new();
    s.append("{\"loc\":[");
    push_dec(&mut s, event.loc.0);
    s.append(",");
    push_dec(&mut s, event.loc.1);
    s.append("],\"color\":");
    push_dec(&mut s, event.color as u32);
    s.append("}");
    proof {
        assert(s@ =~= spec_event_json(event.loc.0, event.loc.1, event.color));
    }
    s
}

/// The base64 text (standard alphabet, no padding) of a byte sequence.
pub uninterp spec fn b64_of(bytes: Seq<u8>) -> Seq<char>;

/// Relies on base64's `Engine::encode` with the `STANDARD_NO_PAD` engine:
/// the encoding is a pure function of the input bytes, and the empty
/// input encodes to the empty string. The length bound keeps the
/// engine's output-size computation from overflowing `usize`.
#[verifier::external_body]
pub(crate) fn encode_base64(bytes: &Vec<u8>) -> (s: String)
    requires
        bytes@.len() <= 0x7FFF_FFFF,
    ensures
        s@ == b64_of(bytes@),
        bytes@.len() == 0 ==> s@.len() == 0,
{
    base64::Engine::encode(&base64::engine::general_purpose::STANDARD_NO_PAD, bytes)
}

} // verus!
