//! Button events and their four-byte wire record.
use vstd::prelude::*;

verus! {

/// What a button did. `Released`, `Pressed`, `Hold` and `Multi` are states of the
/// button state machine; `Single` .. `Quadruple` are labels that a multi-click
/// message takes on when it is constructed.
#[derive(Debug, Clone, Copy, PartialEq, Eq, Structural)]
pub enum ButtonState {
    Released,
    Pressed,
    Hold,
    Single,
    Double,
    Tripple,
    Quadruple,
    Multi,
}

/// The wire code of a state: 0 to 6 for the named values, 127 for `Multi`.
pub open spec fn code_of(s: ButtonState) -> u8 {
    match s {
        ButtonState::Released => 0,
        ButtonState::Pressed => 1,
        ButtonState::Hold => 2,
        ButtonState::Single => 3,
        ButtonState::Double => 4,
        ButtonState::Tripple => 5,
        ButtonState::Quadruple => 6,
        ButtonState::Multi => 127,
    }
}

/// The state that a wire code stands for, if any.
pub open spec fn state_of_code(c: int) -> Option<ButtonState> {
    if c == 0 {
        Some(ButtonState::Released)
    } else if c == 1 {
        Some(ButtonState::Pressed)
    } else if c == 2 {
        Some(ButtonState::Hold)
    } else if c == 3 {
        Some(ButtonState::Single)
    } else if c == 4 {
        Some(ButtonState::Double)
    } else if c == 5 {
        Some(ButtonState::Tripple)
    } else if c == 6 {
        Some(ButtonState::Quadruple)
    } else if c == 127 {
        Some(ButtonState::Multi)
    } else {
        None
    }
}

/// The state a message displays: a `Multi` whose count plus two is a defined
/// code takes that code's label; everything else is kept.
pub open spec fn collapsed(state: ButtonState, count: u16) -> ButtonState {
    if state == ButtonState::Multi {
        match state_of_code(count + 2) {
            Some(label) => label,
            None => ButtonState::Multi,
        }
    } else {
        state
    }
}

impl ButtonState {
    /// The wire code of this state.
    pub fn code(&self) -> (r: u8)
        ensures
            r == code_of(*self),
    {
        match self {
            ButtonState::Released => 0,
            ButtonState::Pressed => 1,
            ButtonState::Hold => 2,
            ButtonState::Single => 3,
            ButtonState::Double => 4,
            ButtonState::Tripple => 5,
            ButtonState::Quadruple => 6,
            ButtonState::Multi => 127,
        }
    }
}

impl core::convert::TryFrom<u8> for ButtonState {
    type Error = ();

    fn try_from(value: u8) -> (r: Result<ButtonState, ()>) {
        let result = match value {
            0 => ButtonState::Released,
            1 => ButtonState::Pressed,
            2 => ButtonState::Hold,
            3 => ButtonState::Single,
            4 => ButtonState::Double,
            5 => ButtonState::Tripple,
            6 => ButtonState::Quadruple,
            127 => ButtonState::Multi,
            _ => {
                return Err(());
            },
        };
        Ok(result)
    }
}

impl vstd::std_specs::convert::TryFromSpecImpl<u8> for ButtonState {
    open spec fn obeys_try_from_spec() -> bool {
        true
    }

    open spec fn try_from_spec(v: u8) -> Result<ButtonState, ()> {
        match state_of_code(v as int) {
            Some(s) => Ok(s),
            None => Err(()),
        }
    }
}

/// One button event: the line it happened on, what happened, and a count
/// (clicks of a burst, or hold repetitions).
#[derive(Debug, Clone, Copy, PartialEq, Eq, Structural)]
pub struct ButtonMessage {
    pub num: usize,
    pub state: ButtonState,
    pub count: u16,
}

/// The message that `ButtonMessage::new(num, state, count)` builds.
pub open spec fn message(num: usize, state: ButtonState, count: u16) -> ButtonMessage {
    ButtonMessage { num, state: collapsed(state, count), count }
}

/// The wire record of a message: `[line, state code, count high, count low]`.
pub open spec fn encode(m: ButtonMessage) -> Seq<u8> {
    seq![(m.num % 256) as u8, code_of(m.state), (m.count / 256) as u8, (m.count % 256) as u8]
}

/// The count held by the bytes after the state code, read big-endian and
/// zero-extended; bytes beyond the fourth are not read.
pub open spec fn count_of(b: Seq<u8>) -> u16 {
    if b.len() >= 4 {
        (b[2] * 256 + b[3]) as u16
    } else if b.len() == 3 {
        b[2] as u16
    } else {
        0
    }
}

/// The message a byte record holds, or `None` when it is shorter than two bytes
/// or its second byte is no state code.
pub open spec fn decode(b: Seq<u8>) -> Option<ButtonMessage> {
    if b.len() < 2 {
        None
    } else {
        match state_of_code(b[1] as int) {
            Some(state) => Some(ButtonMessage { num: b[0] as usize, state, count: count_of(b) }),
            None => None,
        }
    }
}

impl ButtonMessage {
    /// Builds a message; a `Multi` with one to four clicks (count plus two a
    /// defined code) is labelled `Single` .. `Quadruple`, the count kept.
    pub fn new(num: usize, state: ButtonState, count: u16) -> (r: ButtonMessage)
        ensures
            r == message(num, state, count),
    {
        let state = if state == ButtonState::Multi {
            if count <= 4 {
                match ButtonState::try_from((count + 2) as u8) {
                    Ok(label) => label,
                    Err(_) => ButtonState::Multi,
                }
            } else {
                ButtonState::Multi
            }
        } else {
            state
        };
        ButtonMessage { num, state, count }
    }

    /// Reads a message from a byte record; the state code is taken as it is,
    /// with no label applied.
    pub fn from_bytes(data: &[u8]) -> (r: Result<ButtonMessage, ()>)
        ensures
            r matches Ok(m) ==> decode(data@) == Some(m),
            r is Err <==> decode(data@) is None,
    {
        if data.len() < 2 {
            return Err(());
        }
        let num = data[0] as usize;
        let state = ButtonState::try_from(data[1])?;
        let count: u16 = if data.len() >= 4 {
            (data[2] as u16) * 256 + data[3] as u16
        } else if data.len() == 3 {
            data[2] as u16
        } else {
            0
        };
        Ok(ButtonMessage { num, state, count })
    }

    /// The four-byte wire record of this message.
    pub fn to_bytes(&self) -> (r: [u8; 4])
        ensures
            r@ == encode(*self),
    {
        let bytes: [u8; 4] = [
            (self.num % 256) as u8,
            self.state.code(),
            (self.count / 256) as u8,
            (self.count % 256) as u8,
        ];
        assert(bytes@ =~= encode(*self));
        bytes
    }
}

proof fn lemma_code_decodes(s: ButtonState)
    ensures
        state_of_code(code_of(s) as int) == Some(s),
{
}

/// A message whose line fits one byte comes back unchanged from its wire
/// record; so does every message that `ButtonMessage::new` builds, which for a
/// multi-click is the labelled form, and for any other state is the message as
/// given.
pub proof fn lemma_round_trip(m: ButtonMessage, num: usize, state: ButtonState, count: u16)
    requires
        m.num < 256,
        num < 256,
    ensures
        decode(encode(m)) == Some(m),
        decode(encode(message(num, state, count))) == Some(message(num, state, count)),
        state != ButtonState::Multi ==> message(num, state, count) == (ButtonMessage { num, state, count }),
{
    lemma_code_decodes(m.state);
    lemma_code_decodes(collapsed(state, count));
    let c = m.count;
    assert((c / 256) as u8 * 256 + (c % 256) as u8 == c);
    assert((count / 256) as u8 * 256 + (count % 256) as u8 == count);
}

/// A record of four bytes or more with a defined state code decodes to a
/// message whose wire record is the first four bytes.
pub proof fn lemma_bytes_round_trip(b: Seq<u8>)
    requires
        b.len() >= 4,
        state_of_code(b[1] as int) is Some,
    ensures
        decode(b) is Some,
        encode(decode(b).unwrap()) == b.take(4),
{
    let m = decode(b).unwrap();
    let hi = b[2];
    let lo = b[3];
    assert(((hi * 256 + lo) as u16 / 256) as u8 == hi);
    assert(((hi * 256 + lo) as u16 % 256) as u8 == lo);
    lemma_code_decodes(m.state);
    assert(code_of(m.state) == b[1]);
    assert(encode(m) =~= b.take(4));
}

/// A multi-click of one to four clicks is labelled `Single`, `Double`,
/// `Tripple`, `Quadruple`; of five or more it stays `Multi`. The count is
/// kept either way.
pub proof fn lemma_multi_labels(num: usize, count: u16)
    requires
        count >= 1,
    ensures
        message(num, ButtonState::Multi, count).count == count,
        count == 1 ==> message(num, ButtonState::Multi, count).state == ButtonState::Single,
        count == 2 ==> message(num, ButtonState::Multi, count).state == ButtonState::Double,
        count == 3 ==> message(num, ButtonState::Multi, count).state == ButtonState::Tripple,
        count == 4 ==> message(num, ButtonState::Multi, count).state == ButtonState::Quadruple,
        count >= 5 ==> message(num, ButtonState::Multi, count).state == ButtonState::Multi,
{
}

/// A record shorter than two bytes, or whose second byte is not one of 0 to 6
/// or 127, does not decode.
pub proof fn lemma_decode_rejects(b: Seq<u8>)
    ensures
        b.len() < 2 ==> decode(b) is None,
        b.len() >= 2 && !(b[1] <= 6 || b[1] == 127) ==> decode(b) is None,
{
}

} // verus!
