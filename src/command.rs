use vstd::prelude::*;
use crate::error::RelayError;
use crate::events::{EventMessage, MessageView, Objects, Operations, MAX_PAYLOAD};
use vstd::string::StringSliceAdditionalSpecFns;

verus! {

/// The length of the UTF-8 encoding of a Unicode White_Space character that
/// starts `s`, or 0 where none does. The characters are U+0009 to U+000D,
/// U+0020, U+0085, U+00A0, U+1680, U+2000 to U+200A, U+2028, U+2029,
/// U+202F, U+205F and U+3000. In valid UTF-8 the first byte of each of these
/// encodings only ever starts a character, so a match is never part of some
/// other character.
pub open spec fn space_len(s: Seq<u8>) -> nat {
    if s.len() >= 1 && (s[0] == 32 || (9 <= s[0] <= 13)) {
        1
    } else if s.len() >= 2 && s[0] == 0xC2 && (s[1] == 0x85 || s[1] == 0xA0) {
        2
    } else if s.len() >= 3 && (
        (s[0] == 0xE1 && s[1] == 0x9A && s[2] == 0x80)
        || (s[0] == 0xE2 && s[1] == 0x80 && ((0x80 <= s[2] <= 0x8A) || s[2] == 0xA8
            || s[2] == 0xA9 || s[2] == 0xAF))
        || (s[0] == 0xE2 && s[1] == 0x81 && s[2] == 0x9F)
        || (s[0] == 0xE3 && s[1] == 0x80 && s[2] == 0x80)
    ) {
        3
    } else {
        0
    }
}

/// The tokens of `s`, where `cur` is the part of a token read just before
/// `s`: maximal runs of bytes between whitespace characters, from left to
/// right.
pub open spec fn split_from(s: Seq<u8>, cur: Seq<u8>) -> Seq<Seq<u8>>
    decreases s.len(),
{
    if s.len() == 0 {
        if cur.len() > 0 {
            seq![cur]
        } else {
            Seq::empty()
        }
    } else if space_len(s) > 0 {
        let rest = split_from(s.skip(space_len(s) as int), Seq::empty());
        if cur.len() > 0 {
            seq![cur] + rest
        } else {
            rest
        }
    } else {
        split_from(s.drop_first(), cur.push(s[0]))
    }
}

/// The whitespace-separated tokens of the UTF-8 bytes `s`.
pub open spec fn tokens(s: Seq<u8>) -> Seq<Seq<u8>> {
    split_from(s, Seq::empty())
}

/// The contents of each buffer of `v`.
pub open spec fn contents(v: Seq<Vec<u8>>) -> Seq<Seq<u8>> {
    v.map_values(|t: Vec<u8>| t@)
}

/// The length of the whitespace character that starts at `line[i]`, or 0.
fn space_len_at(line: &[u8], i: usize) -> (k: usize)
    requires
        i <= line@.len(),
    ensures
        k == space_len(line@.skip(i as int)),
{
    let n = line.len() - i;
    if n >= 1 {
        let b0 = line[i];
        if b0 == 32 || (9 <= b0 && b0 <= 13) {
            return 1;
        }
        if n >= 2 {
            let b1 = line[i + 1];
            if b0 == 0xC2 && (b1 == 0x85 || b1 == 0xA0) {
                return 2;
            }
            if n >= 3 {
                let b2 = line[i + 2];
                if (b0 == 0xE1 && b1 == 0x9A && b2 == 0x80) || (b0 == 0xE2 && b1 == 0x80 && ((
                0x80 <= b2 && b2 <= 0x8A) || b2 == 0xA8 || b2 == 0xA9 || b2 == 0xAF)) || (b0
                    == 0xE2 && b1 == 0x81 && b2 == 0x9F) || (b0 == 0xE3 && b1 == 0x80 && b2
                    == 0x80) {
                    return 3;
                }
            }
        }
    }
    0
}

/// The tokens of `line`.
pub fn split_tokens(line: &[u8]) -> (r: Vec<Vec<u8>>)
    ensures
        contents(r@) == tokens(line@),
{
    let mut done: Vec<Vec<u8>> = Vec::new();
    let mut cur: Vec<u8> = Vec::new();
    let mut i: usize = 0;
    proof {
        assert(line@.skip(0) =~= line@);
        assert(contents(done@) + split_from(line@.skip(0), cur@) =~= tokens(line@));
    }
    while i < line.len()
        invariant
            0 <= i <= line@.len(),
            contents(done@) + split_from(line@.skip(i as int), cur@) == tokens(line@),
        decreases line@.len() - i,
    {
        let k = space_len_at(line, i);
        let ghost rest = line@.skip(i as int);
        let ghost old_done = contents(done@);
        let ghost old_cur = cur@;
        if k > 0 {
            proof {
                assert(rest.skip(k as int) =~= line@.skip(i + k));
                let after = split_from(line@.skip(i + k), Seq::empty());
                if old_cur.len() > 0 {
                    assert(split_from(rest, old_cur) == seq![old_cur] + after);
                } else {
                    assert(split_from(rest, old_cur) == after);
                    assert(old_cur =~= Seq::<u8>::empty());
                }
            }
            if cur.len() > 0 {
                done.push(cur);
                cur = Vec::new();
                proof {
                    assert(contents(done@) =~= old_done.push(old_cur));
                    assert(old_done + (seq![old_cur] + split_from(line@.skip(i + k), cur@))
                        =~= contents(done@) + split_from(line@.skip(i + k), cur@));
                }
            }
            i = i + k;
        } else {
            proof {
                assert(rest.drop_first() =~= line@.skip(i + 1));
                assert(rest[0] == line@[i as int]);
                assert(split_from(rest, old_cur) == split_from(line@.skip(i + 1), old_cur.push(line@[i as int])));
            }
            cur.push(line[i]);
            i = i + 1;
        }
    }
    proof {
        assert(split_from(line@.skip(i as int), cur@) == if cur@.len() > 0 {
            seq![cur@]
        } else {
            Seq::<Seq<u8>>::empty()
        });
    }
    let ghost old_done = contents(done@);
    let ghost old_cur = cur@;
    if cur.len() > 0 {
        done.push(cur);
        proof {
            assert(contents(done@) =~= old_done + seq![old_cur]);
        }
    } else {
        proof {
            assert(contents(done@) =~= old_done + Seq::<Seq<u8>>::empty());
        }
    }
    done
}

/// The abstract content of a parsed command line.
pub struct CommandView {
    pub operation: Operations,
    pub object: Objects,
    pub payload_source: Option<Seq<u8>>,
}

/// A parsed console command: an operation, its object and, when the line has
/// a third token, the name of the resource whose contents become the payload.
#[derive(Debug, Clone, PartialEq, Eq)]
pub struct Command {
    pub operation: Operations,
    pub object: Objects,
    pub payload_source: Option<Vec<u8>>,
}

impl View for Command {
    type V = CommandView;

    open spec fn view(&self) -> CommandView {
        CommandView {
            operation: self.operation,
            object: self.object,
            payload_source: match self.payload_source {
                Some(p) => Some(p@),
                None => None,
            },
        }
    }
}

/// What the grammar `OPERATION OBJECT [PAYLOAD_SOURCE]` makes of the bytes of
/// a console line. Tokens past the third are ignored.
pub open spec fn parse(line: Seq<u8>) -> Result<CommandView, RelayError> {
    let t = tokens(line);
    if t.len() < 2 {
        Err(RelayError::MissingArguments)
    } else {
        match (Operations::of_token(t[0]), Objects::of_token(t[1])) {
            (None, _) => Err(RelayError::InvalidOperation),
            (Some(_), None) => Err(RelayError::InvalidObject),
            (Some(op), Some(obj)) => Ok(
                CommandView {
                    operation: op,
                    object: obj,
                    payload_source: if t.len() > 2 {
                        Some(t[2])
                    } else {
                        None
                    },
                },
            ),
        }
    }
}

/// The message that command `c` yields once its payload source, if any, has
/// been read: `contents` is what was read, or `None` where reading failed.
pub open spec fn complete_spec(c: CommandView, contents: Option<Seq<u8>>) -> Result<
    MessageView,
    RelayError,
> {
    match c.payload_source {
        None => Ok(MessageView { operation: c.operation, object: c.object, data: None }),
        Some(_) => match contents {
            None => Err(RelayError::PayloadReadFailure),
            Some(d) => if d.len() > MAX_PAYLOAD {
                Err(RelayError::PayloadTooLarge)
            } else {
                Ok(MessageView { operation: c.operation, object: c.object, data: Some(d) })
            },
        },
    }
}

/// Parses one console line.
pub fn parse_command(line: &str) -> (r: Result<Command, RelayError>)
    ensures
        match (r, parse(line.spec_bytes())) {
            (Ok(c), Ok(v)) => c@ == v,
            (Err(e), Err(f)) => e == f,
            _ => false,
        },
{
    let t = split_tokens(line.as_bytes());
    if t.len() < 2 {
        return Err(RelayError::MissingArguments);
    }
    assert(t@[0]@ == tokens(line.spec_bytes())[0]);
    assert(t@[1]@ == tokens(line.spec_bytes())[1]);
    let operation = match Operations::from_token(t[0].as_slice()) {
        Ok(op) => op,
        Err(_) => return Err(RelayError::InvalidOperation),
    };
    let object = match Objects::from_token(t[1].as_slice()) {
        Ok(obj) => obj,
        Err(_) => return Err(RelayError::InvalidObject),
    };
    let payload_source = if t.len() > 2 {
        assert(t@[2]@ == tokens(line.spec_bytes())[2]);
        Some(t[2].clone())
    } else {
        None
    };
    Ok(Command { operation, object, payload_source })
}

/// Turns command `cmd` into a message. `contents` is what was read from its
/// payload source, or `None` where reading failed; it is not looked at when
/// the command names no payload source.
pub fn complete(cmd: Command, contents: Option<Vec<u8>>) -> (r: Result<EventMessage, RelayError>)
    ensures
        match (r, complete_spec(cmd@, EventMessage::data_view(contents))) {
            (Ok(m), Ok(v)) => m@ == v && m.wf(),
            (Err(e), Err(f)) => e == f,
            _ => false,
        },
{
    match cmd.payload_source {
        None => Ok(EventMessage::new(cmd.operation, cmd.object, None)),
        Some(_) => match contents {
            None => Err(RelayError::PayloadReadFailure),
            Some(d) => if d.len() > MAX_PAYLOAD {
                Err(RelayError::PayloadTooLarge)
            } else {
                Ok(EventMessage::new(cmd.operation, cmd.object, Some(d)))
            },
        },
    }
}

} // verus!
