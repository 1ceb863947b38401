use vstd::prelude::*;
use crate::error::RelayError;
use vstd::string::{StringExecFns, StringSliceAdditionalSpecFns};

verus! {

broadcast use vstd::utf8::is_ascii_chars_encode_utf8;

/// ASCII lower-casing of one byte; other bytes are kept.
pub open spec fn ascii_lower(b: u8) -> u8 {
    if 65 <= b <= 90 {
        (b + 32) as u8
    } else {
        b
    }
}

/// ASCII lower-casing of every byte of `s`.
pub open spec fn lower_all(s: Seq<u8>) -> Seq<u8> {
    s.map_values(|b: u8| ascii_lower(b))
}

/// `a` and `b` are equal up to ASCII case.
pub open spec fn eq_ignore_case(a: Seq<u8>, b: Seq<u8>) -> bool {
    &&& a.len() == b.len()
    &&& forall|i: int| 0 <= i < a.len() ==> ascii_lower(#[trigger] a[i]) == ascii_lower(b[i])
}

/// The bytes of an ASCII string are its characters, one byte each.
proof fn lemma_ascii_bytes(s: &str, expect: Seq<u8>)
    requires
        s@.len() == expect.len(),
        forall|i: int| 0 <= i < s@.len() ==> '\0' <= #[trigger] s@[i] <= '\u{7f}' && s@[i] as u32 == expect[i] as u32,
    ensures
        s.spec_bytes() == expect,
{
    assert(vstd::utf8::is_ascii_chars(s@));
    assert forall|i: int| 0 <= i < s@.len() implies s.spec_bytes()[i] == expect[i] by {
        assert(s@[i] as u8 == s.spec_bytes()[i]);
    }
    assert(s.spec_bytes() =~= expect);
}

/// Compares two byte strings up to ASCII case.
pub fn bytes_eq_ignore_case(a: &[u8], b: &[u8]) -> (r: bool)
    ensures
        r == eq_ignore_case(a@, b@),
{
    if a.len() != b.len() {
        return false;
    }
    let mut i: usize = 0;
    while i < a.len()
        invariant
            a@.len() == b@.len(),
            0 <= i <= a@.len(),
            forall|j: int| 0 <= j < i ==> ascii_lower(#[trigger] a@[j]) == ascii_lower(b@[j]),
        decreases a@.len() - i,
    {
        let x = a[i];
        let y = b[i];
        let lx: u8 = if 65 <= x && x <= 90 { x + 32 } else { x };
        let ly: u8 = if 65 <= y && y <= 90 { y + 32 } else { y };
        if lx != ly {
            assert(ascii_lower(a@[i as int]) != ascii_lower(b@[i as int]));
            return false;
        }
        i = i + 1;
    }
    true
}

/// The verb of a command, with its byte code on the wire.
#[derive(Debug, Clone, Copy, PartialEq, Eq, Structural)]
pub enum Operations {
    Delete,
    Disable,
    Enable,
    IssueCertificate,
}

impl Default for Operations {
    fn default() -> (r: Self)
        ensures
            r == Operations::Delete,
    {
        Operations::Delete
    }
}

impl Operations {
    /// The byte code of this operation.
    pub open spec fn code(self) -> u8 {
        match self {
            Operations::Delete => 1,
            Operations::Disable => 2,
            Operations::Enable => 3,
            Operations::IssueCertificate => 4,
        }
    }

    /// The operation whose byte code is `b`, if any.
    pub open spec fn of_code(b: u8) -> Option<Operations> {
        if b == 1 {
            Some(Operations::Delete)
        } else if b == 2 {
            Some(Operations::Disable)
        } else if b == 3 {
            Some(Operations::Enable)
        } else if b == 4 {
            Some(Operations::IssueCertificate)
        } else {
            None
        }
    }

    /// The lower-case console token of this operation.
    pub open spec fn token(self) -> Seq<u8> {
        match self {
            Operations::Delete => seq![100u8, 101, 108, 101, 116, 101],
            Operations::Disable => seq![100u8, 105, 115, 97, 98, 108, 101],
            Operations::Enable => seq![101u8, 110, 97, 98, 108, 101],
            Operations::IssueCertificate => seq![105u8, 115, 115, 117, 101],
        }
    }

    /// The operation whose token equals `t` up to ASCII case, if any.
    pub open spec fn of_token(t: Seq<u8>) -> Option<Operations> {
        if eq_ignore_case(t, Operations::Delete.token()) {
            Some(Operations::Delete)
        } else if eq_ignore_case(t, Operations::Disable.token()) {
            Some(Operations::Disable)
        } else if eq_ignore_case(t, Operations::Enable.token()) {
            Some(Operations::Enable)
        } else if eq_ignore_case(t, Operations::IssueCertificate.token()) {
            Some(Operations::IssueCertificate)
        } else {
            None
        }
    }

    pub fn to_byte(self) -> (r: u8)
        ensures
            r == self.code(),
    {
        match self {
            Operations::Delete => 1,
            Operations::Disable => 2,
            Operations::Enable => 3,
            Operations::IssueCertificate => 4,
        }
    }

    pub fn from_byte(b: u8) -> (r: Result<Operations, RelayError>)
        ensures
            r == match Operations::of_code(b) {
                Some(v) => Ok(v),
                None => Err(RelayError::InvalidEncoding),
            },
    {
        match b {
            1 => Ok(Operations::Delete),
            2 => Ok(Operations::Disable),
            3 => Ok(Operations::Enable),
            4 => Ok(Operations::IssueCertificate),
            _ => Err(RelayError::InvalidEncoding),
        }
    }

    /// The lower-case console token of this operation.
    pub fn to_text(self) -> (r: &'static str)
        ensures
            r.spec_bytes() == self.token(),
    {
        match self {
            Operations::Delete => {
                proof {
                    reveal_strlit("delete");
                    lemma_ascii_bytes("delete", seq![100u8, 101, 108, 101, 116, 101]);
                }
                "delete"
            },
            Operations::Disable => {
                proof {
                    reveal_strlit("disable");
                    lemma_ascii_bytes("disable", seq![100u8, 105, 115, 97, 98, 108, 101]);
                }
                "disable"
            },
            Operations::Enable => {
                proof {
                    reveal_strlit("enable");
                    lemma_ascii_bytes("enable", seq![101u8, 110, 97, 98, 108, 101]);
                }
                "enable"
            },
            Operations::IssueCertificate => {
                proof {
                    reveal_strlit("issue");
                    lemma_ascii_bytes("issue", seq![105u8, 115, 115, 117, 101]);
                }
                "issue"
            },
        }
    }
    /// The operation named by console token `t`, compared up to ASCII case.
    pub fn from_token(t: &[u8]) -> (r: Result<Operations, RelayError>)
        ensures
            r == match Operations::of_token(t@) {
                Some(v) => Ok(v),
                None => Err(RelayError::InvalidEncoding),
            },
    {
        if bytes_eq_ignore_case(t, Operations::Delete.to_text().as_bytes()) {
            Ok(Operations::Delete)
        } else if bytes_eq_ignore_case(t, Operations::Disable.to_text().as_bytes()) {
            Ok(Operations::Disable)
        } else if bytes_eq_ignore_case(t, Operations::Enable.to_text().as_bytes()) {
            Ok(Operations::Enable)
        } else if bytes_eq_ignore_case(t, Operations::IssueCertificate.to_text().as_bytes()) {
            Ok(Operations::IssueCertificate)
        } else {
            Err(RelayError::InvalidEncoding)
        }
    }

    /// The operation named by console token `s`, compared up to ASCII case.
    pub fn from_text(s: &str) -> (r: Result<Operations, RelayError>)
        ensures
            r == match Operations::of_token(s.spec_bytes()) {
                Some(v) => Ok(v),
                None => Err(RelayError::InvalidEncoding),
            },
    {
        Operations::from_token(s.as_bytes())
    }

    /// The name under which this value is shown to the operator.
    pub open spec fn label_text(self) -> Seq<char> {
        match self {
            Operations::Delete => "Delete"@,
            Operations::Disable => "Disable"@,
            Operations::Enable => "Enable"@,
            Operations::IssueCertificate => "Issue CarKey"@,
        }
    }

    /// The name under which an operation is shown to the operator.
    pub fn label(self) -> (r: &'static str)
        ensures
            r@ == self.label_text(),
    {
        match self {
            Operations::Delete => "Delete",
            Operations::Disable => "Disable",
            Operations::Enable => "Enable",
            Operations::IssueCertificate => "Issue CarKey",
        }
    }
}

/// The class of target that an object applies to, with its byte code on the wire.
#[derive(Debug, Clone, Copy, PartialEq, Eq, Structural)]
pub enum Objects {
    Owner,
    Friend,
    Middle,
}

impl Default for Objects {
    fn default() -> (r: Self)
        ensures
            r == Objects::Owner,
    {
        Objects::Owner
    }
}

impl Objects {
    /// The byte code of this object.
    pub open spec fn code(self) -> u8 {
        match self {
            Objects::Owner => 1,
            Objects::Friend => 2,
            Objects::Middle => 3,
        }
    }

    /// The object whose byte code is `b`, if any.
    pub open spec fn of_code(b: u8) -> Option<Objects> {
        if b == 1 {
            Some(Objects::Owner)
        } else if b == 2 {
            Some(Objects::Friend)
        } else if b == 3 {
            Some(Objects::Middle)
        } else {
            None
        }
    }

    /// The lower-case console token of this object.
    pub open spec fn token(self) -> Seq<u8> {
        match self {
            Objects::Owner => seq![111u8, 119, 110, 101, 114],
            Objects::Friend => seq![102u8, 114, 105, 101, 110, 100],
            Objects::Middle => seq![109u8, 105, 100, 100, 108, 101],
        }
    }

    /// The object whose token equals `t` up to ASCII case, if any.
    pub open spec fn of_token(t: Seq<u8>) -> Option<Objects> {
        if eq_ignore_case(t, Objects::Owner.token()) {
            Some(Objects::Owner)
        } else if eq_ignore_case(t, Objects::Friend.token()) {
            Some(Objects::Friend)
        } else if eq_ignore_case(t, Objects::Middle.token()) {
            Some(Objects::Middle)
        } else {
            None
        }
    }

    pub fn to_byte(self) -> (r: u8)
        ensures
            r == self.code(),
    {
        match self {
            Objects::Owner => 1,
            Objects::Friend => 2,
            Objects::Middle => 3,
        }
    }

    pub fn from_byte(b: u8) -> (r: Result<Objects, RelayError>)
        ensures
            r == match Objects::of_code(b) {
                Some(v) => Ok(v),
                None => Err(RelayError::InvalidEncoding),
            },
    {
        match b {
            1 => Ok(Objects::Owner),
            2 => Ok(Objects::Friend),
            3 => Ok(Objects::Middle),
            _ => Err(RelayError::InvalidEncoding),
        }
    }

    /// The lower-case console token of this object.
    pub fn to_text(self) -> (r: &'static str)
        ensures
            r.spec_bytes() == self.token(),
    {
        match self {
            Objects::Owner => {
                proof {
                    reveal_strlit("owner");
                    lemma_ascii_bytes("owner", seq![111u8, 119, 110, 101, 114]);
                }
                "owner"
            },
            Objects::Friend => {
                proof {
                    reveal_strlit("friend");
                    lemma_ascii_bytes("friend", seq![102u8, 114, 105, 101, 110, 100]);
                }
                "friend"
            },
            Objects::Middle => {
                proof {
                    reveal_strlit("middle");
                    lemma_ascii_bytes("middle", seq![109u8, 105, 100, 100, 108, 101]);
                }
                "middle"
            },
        }
    }

    /// The object named by console token `t`, compared up to ASCII case.
    pub fn from_token(t: &[u8]) -> (r: Result<Objects, RelayError>)
        ensures
            r == match Objects::of_token(t@) {
                Some(v) => Ok(v),
                None => Err(RelayError::InvalidEncoding),
            },
    {
        if bytes_eq_ignore_case(t, Objects::Owner.to_text().as_bytes()) {
            Ok(Objects::Owner)
        } else if bytes_eq_ignore_case(t, Objects::Friend.to_text().as_bytes()) {
            Ok(Objects::Friend)
        } else if bytes_eq_ignore_case(t, Objects::Middle.to_text().as_bytes()) {
            Ok(Objects::Middle)
        } else {
            Err(RelayError::InvalidEncoding)
        }
    }

    /// The object named by console token `s`, compared up to ASCII case.
    pub fn from_text(s: &str) -> (r: Result<Objects, RelayError>)
        ensures
            r == match Objects::of_token(s.spec_bytes()) {
                Some(v) => Ok(v),
                None => Err(RelayError::InvalidEncoding),
            },
    {
        Objects::from_token(s.as_bytes())
    }

    /// The name under which this value is shown to the operator.
    pub open spec fn label_text(self) -> Seq<char> {
        match self {
            Objects::Owner => "Owner"@,
            Objects::Friend => "Friend"@,
            Objects::Middle => "Middle"@,
        }
    }

    /// The name under which an object is shown to the operator.
    pub fn label(self) -> (r: &'static str)
        ensures
            r@ == self.label_text(),
    {
        match self {
            Objects::Owner => "Owner",
            Objects::Friend => "Friend",
            Objects::Middle => "Middle",
        }
    }
}

/// The abstract content of a message: what its frame encodes.
pub struct MessageView {
    pub operation: Operations,
    pub object: Objects,
    pub data: Option<Seq<u8>>,
}

/// The largest payload that a 16-bit length prefix can describe.
pub const MAX_PAYLOAD: usize = 65535;

/// A payload, if present, fits a 16-bit length prefix.
pub open spec fn payload_fits(m: MessageView) -> bool {
    m.data is Some ==> m.data->0.len() <= MAX_PAYLOAD
}

/// The wire frame of `m`: operation byte, object byte and, when a payload is
/// present, its big-endian 16-bit length followed by the payload bytes.
pub open spec fn encode(m: MessageView) -> Seq<u8> {
    seq![m.operation.code(), m.object.code()] + match m.data {
        None => Seq::<u8>::empty(),
        Some(d) => seq![(d.len() / 256) as u8, (d.len() % 256) as u8] + d,
    }
}

/// The message that frame `b` carries, if `b` is a well-formed frame.
pub open spec fn decode(b: Seq<u8>) -> Option<MessageView> {
    if b.len() < 2 {
        None
    } else {
        match (Operations::of_code(b[0]), Objects::of_code(b[1])) {
            (Some(op), Some(obj)) => {
                if b.len() == 2 {
                    Some(MessageView { operation: op, object: obj, data: None })
                } else if b.len() >= 4 && b.len() == 4 + (b[2] as int) * 256 + (b[3] as int) {
                    Some(MessageView { operation: op, object: obj, data: Some(b.subrange(4, b.len() as int)) })
                } else {
                    None
                }
            },
            _ => None,
        }
    }
}

/// One protocol unit: an operation, the object it applies to and an optional
/// payload.
#[derive(Debug, Clone, PartialEq, Eq)]
pub struct EventMessage {
    operation: Operations,
    object: Objects,
    data: Option<Vec<u8>>,
}

impl View for EventMessage {
    type V = MessageView;

    closed spec fn view(&self) -> MessageView {
        MessageView {
            operation: self.operation,
            object: self.object,
            data: EventMessage::data_view(self.data),
        }
    }
}

/// Copies `src` onto the end of `dst`.
fn append_bytes(dst: &mut Vec<u8>, src: &[u8])
    ensures
        final(dst)@ == old(dst)@ + src@,
{
    let mut i: usize = 0;
    while i < src.len()
        invariant
            0 <= i <= src@.len(),
            dst@ == old(dst)@ + src@.subrange(0, i as int),
        decreases src@.len() - i,
    {
        dst.push(src[i]);
        proof {
            assert(src@.subrange(0, i + 1) == src@.subrange(0, i as int).push(src@[i as int]));
        }
        i = i + 1;
    }
    proof {
        assert(src@.subrange(0, src@.len() as int) == src@);
    }
}

impl EventMessage {
    /// The payload fits its length prefix, so the message can be serialized.
    pub open spec fn wf(&self) -> bool {
        payload_fits(self@)
    }

    pub open spec fn data_view(data: Option<Vec<u8>>) -> Option<Seq<u8>> {
        match data {
            Some(d) => Some(d@),
            None => None,
        }
    }

    pub fn new(operation: Operations, object: Objects, data: Option<Vec<u8>>) -> (r: Self)
        ensures
            r@ == (MessageView { operation, object, data: EventMessage::data_view(data) }),
    {
        EventMessage { operation, object, data }
    }

    pub fn get_operation(&self) -> (r: Operations)
        ensures
            r == self@.operation,
    {
        self.operation
    }

    pub fn set_operation(&mut self, operation: Operations)
        ensures
            final(self)@ == (MessageView { operation, ..old(self)@ }),
    {
        self.operation = operation;
    }

    pub fn get_object(&self) -> (r: Objects)
        ensures
            r == self@.object,
    {
        self.object
    }

    pub fn set_object(&mut self, object: Objects)
        ensures
            final(self)@ == (MessageView { object, ..old(self)@ }),
    {
        self.object = object;
    }

    pub fn get_data(&self) -> (r: Option<&[u8]>)
        ensures
            match r {
                Some(d) => self@.data == Some(d@),
                None => self@.data is None,
            },
    {
        match &self.data {
            Some(d) => Some(d.as_slice()),
            None => None,
        }
    }

    pub fn set_data(&mut self, data: Option<Vec<u8>>)
        ensures
            final(self)@ == (MessageView { data: EventMessage::data_view(data), ..old(self)@ }),
    {
        self.data = data;
    }

    /// Whether the payload fits its length prefix.
    pub fn is_well_formed(&self) -> (r: bool)
        ensures
            r == self.wf(),
    {
        match &self.data {
            Some(d) => d.len() <= MAX_PAYLOAD,
            None => true,
        }
    }

    /// The text shown to the operator: operation label, a colon and the
    /// object label.
    pub fn summary(&self) -> (r: String)
        ensures
            r@ == self@.operation.label_text() + ": "@ + self@.object.label_text(),
    {
        let s = String::from_str(self.operation.label());
        let s = s.concat(": ");
        s.concat(self.object.label())
    }

    /// The wire frame of this message; a payload longer than its 16-bit
    /// length prefix can describe is refused.
    pub fn serialize(&self) -> (r: Result<Vec<u8>, RelayError>)
        ensures
            match r {
                Ok(b) => self.wf() && b@ == encode(self@),
                Err(e) => !self.wf() && e == RelayError::PayloadTooLarge,
            },
    {
        if !self.is_well_formed() {
            return Err(RelayError::PayloadTooLarge);
        }
        let mut buffer: Vec<u8> = Vec::new();
        buffer.push(self.operation.to_byte());
        buffer.push(self.object.to_byte());
        match &self.data {
            Some(d) => {
                let n: usize = d.len();
                buffer.push((n / 256) as u8);
                buffer.push((n % 256) as u8);
                append_bytes(&mut buffer, d.as_slice());
            },
            None => {},
        }
        proof {
            assert(buffer@ =~= encode(self@));
        }
        Ok(buffer)
    }

    /// The message carried by frame `bytes`.
    pub fn deserialize(bytes: &[u8]) -> (r: Result<EventMessage, RelayError>)
        ensures
            match r {
                Ok(m) => decode(bytes@) == Some(m@) && m.wf(),
                Err(e) => decode(bytes@) is None && e == RelayError::ProtocolDecodeError,
            },
    {
        if bytes.len() < 2 {
            return Err(RelayError::ProtocolDecodeError);
        }
        let operation = match Operations::from_byte(bytes[0]) {
            Ok(op) => op,
            Err(_) => return Err(RelayError::ProtocolDecodeError),
        };
        let object = match Objects::from_byte(bytes[1]) {
            Ok(obj) => obj,
            Err(_) => return Err(RelayError::ProtocolDecodeError),
        };
        if bytes.len() == 2 {
            return Ok(EventMessage { operation, object, data: None });
        }
        if bytes.len() < 4 {
            return Err(RelayError::ProtocolDecodeError);
        }
        let n: usize = (bytes[2] as usize) * 256 + (bytes[3] as usize);
        if bytes.len() - 4 != n {
            return Err(RelayError::ProtocolDecodeError);
        }
        let mut data: Vec<u8> = Vec::new();
        let mut i: usize = 4;
        while i < bytes.len()
            invariant
                4 <= i <= bytes@.len(),
                data@ == bytes@.subrange(4, i as int),
            decreases bytes@.len() - i,
        {
            data.push(bytes[i]);
            proof {
                assert(bytes@.subrange(4, i + 1) == bytes@.subrange(4, i as int).push(bytes@[i as int]));
            }
            i = i + 1;
        }
        Ok(EventMessage { operation, object, data: Some(data) })
    }
}

/// A message without payload is sent as exactly its two codes, with no
/// length field.
pub proof fn lemma_frame_without_payload(op: Operations, obj: Objects)
    ensures
        encode(MessageView { operation: op, object: obj, data: None }) == seq![op.code(), obj.code()],
        encode(MessageView { operation: op, object: obj, data: None }).len() == 2,
{
    assert(encode(MessageView { operation: op, object: obj, data: None }) =~= seq![op.code(), obj.code()]);
}

/// Decoding the frame of a message gives the message back.
pub proof fn lemma_decode_encode(m: MessageView)
    requires
        payload_fits(m),
    ensures
        decode(encode(m)) == Some(m),
{
    let b = encode(m);
    match m.data {
        None => {
            assert(b.len() == 2);
        },
        Some(d) => {
            let n = d.len();
            assert(b[2] as int * 256 + b[3] as int == n);
            assert(b.subrange(4, b.len() as int) =~= d);
        },
    }
}

/// A frame that decodes to a message is that message's frame: no two frames
/// carry the same message.
pub proof fn lemma_encode_decode(b: Seq<u8>)
    requires
        decode(b) is Some,
    ensures
        payload_fits(decode(b)->0),
        encode(decode(b)->0) == b,
{
    let m = decode(b)->0;
    if b.len() == 2 {
        assert(encode(m) =~= b);
    } else {
        let n = b.len() - 4;
        assert((n / 256) as u8 == b[2] && (n % 256) as u8 == b[3]);
        assert(encode(m) =~= b);
    }
}

/// The byte code of every operation and object maps back to it, and so does
/// its token, lower-cased.
pub proof fn lemma_codes_round_trip(op: Operations, obj: Objects)
    ensures
        Operations::of_code(op.code()) == Some(op),
        Operations::of_token(lower_all(op.token())) == Some(op),
        Objects::of_code(obj.code()) == Some(obj),
        Objects::of_token(lower_all(obj.token())) == Some(obj),
{
    reveal_with_fuel(Seq::map_values, 1);
    assert(lower_all(op.token()) =~= op.token());
    assert(lower_all(obj.token()) =~= obj.token());
}

} // verus!
