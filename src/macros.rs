use vstd::prelude::*;

use crate::device::{Modifier, MouseButton};
use crate::error::CodecError;

verus! {

/// What a macro event presses or releases.
#[derive(Debug, Clone, Copy, PartialEq, Eq, Structural)]
pub enum EventType {
    Keyboard(u8),
    Modifier(Modifier),
    Mouse(MouseButton),
}

#[derive(Debug, Clone, Copy, PartialEq, Eq, Structural)]
pub enum State {
    Up,
    Down,
}

/// One step of a macro: a key or button going up or down, then a pause.
#[derive(Debug, Clone, Copy, PartialEq, Eq, Structural)]
pub struct Event {
    pub state: State,
    pub evtype: EventType,
    /// Pause in milliseconds, 0 to 4095.
    pub duration: u16,
}

/// A macro bank as stored on the device.
#[derive(Debug, Clone)]
pub struct Macro {
    pub bank_number: u8,
    pub events: Vec<Event>,
}

pub struct MacroView {
    pub bank_number: u8,
    pub events: Seq<Event>,
}

impl View for Macro {
    type V = MacroView;

    open spec fn view(&self) -> MacroView {
        MacroView { bank_number: self.bank_number, events: self.events@ }
    }
}

/// Number of bytes of one macro event.
pub const EVENT_LEN: usize = 3;

/// Number of bytes before the events of a bank record.
pub const MACRO_HEADER_LEN: usize = 11;

/// The type selector of an event kind.
pub open spec fn event_type_code(t: EventType) -> u8 {
    match t {
        EventType::Mouse(_) => 1,
        EventType::Keyboard(_) => 5,
        EventType::Modifier(_) => 6,
    }
}

/// The code byte of an event kind.
pub open spec fn event_code(t: EventType) -> u8 {
    match t {
        EventType::Mouse(m) => m.bits,
        EventType::Keyboard(k) => k,
        EventType::Modifier(m) => m.bits,
    }
}

/// The 12-bit duration held in the low nibble of `b0` and all of `b1`.
pub open spec fn duration_of(b0: u8, b1: u8) -> u16 {
    (((b0 & 0x0fu8) as u16) << 8u16) | (b1 as u16)
}

/// The event in the three bytes at `at`, or why they are refused.
pub open spec fn event_at(b: Seq<u8>, at: int) -> Result<Event, CodecError> {
    let b0 = b[at];
    let state = if b0 >> 7u8 == 1u8 { State::Up } else { State::Down };
    let typ = (b0 >> 4u8) & 7u8;
    let duration = duration_of(b0, b[at + 1]);
    let code = b[at + 2];
    if typ == 1 {
        if code < 32 {
            Ok(Event { state, evtype: EventType::Mouse(MouseButton { bits: code }), duration })
        } else {
            Err(CodecError::UnknownActionTag)
        }
    } else if typ == 5 {
        Ok(Event { state, evtype: EventType::Keyboard(code), duration })
    } else if typ == 6 {
        if code < 16 {
            Ok(Event { state, evtype: EventType::Modifier(Modifier { bits: code }), duration })
        } else {
            Err(CodecError::UnknownActionTag)
        }
    } else {
        Err(CodecError::UnknownActionTag)
    }
}

/// The first `n` events after the bank header, or the first event's error.
pub open spec fn events_at(b: Seq<u8>, n: nat) -> Result<Seq<Event>, CodecError>
    decreases n,
{
    if n == 0 {
        Ok(Seq::empty())
    } else {
        match events_at(b, (n - 1) as nat) {
            Err(e) => Err(e),
            Ok(s) => match event_at(b, MACRO_HEADER_LEN + 3 * (n - 1)) {
                Ok(ev) => Ok(s.push(ev)),
                Err(e) => Err(e),
            },
        }
    }
}

/// The bank that a record holds, or the first error met in reading it.
pub open spec fn spec_macro(b: Seq<u8>) -> Result<MacroView, CodecError> {
    if b.len() < MACRO_HEADER_LEN || b.len() < MACRO_HEADER_LEN + 3 * b[10] {
        Err(CodecError::Truncated)
    } else {
        match events_at(b, b[10] as nat) {
            Ok(events) => Ok(MacroView { bank_number: b[8], events }),
            Err(e) => Err(e),
        }
    }
}

/// The three bytes of an event; durations keep their low 12 bits.
pub open spec fn event_bytes(e: Event) -> Seq<u8> {
    let st: u8 = match e.state {
        State::Up => 1,
        State::Down => 0,
    };
    seq![
        (st << 7u8) | (event_type_code(e.evtype) << 4u8) | (((e.duration >> 8u16) as u8) & 0x0fu8),
        e.duration as u8,
        event_code(e.evtype),
    ]
}

impl Event {
    /// Only defined bits in its code and a duration that fits in 12 bits.
    pub open spec fn is_valid(self) -> bool {
        &&& self.duration < 4096
        &&& match self.evtype {
            EventType::Mouse(m) => m.is_valid(),
            EventType::Modifier(m) => m.is_valid(),
            EventType::Keyboard(_) => true,
        }
    }

    fn parse_at(inp: &[u8], at: usize) -> (r: Result<Event, CodecError>)
        requires
            at + 3 <= inp@.len(),
        ensures
            r == event_at(inp@, at as int),
    {
        let b0 = inp[at];
        let state = if b0 >> 7u8 == 1u8 {
            State::Up
        } else {
            State::Down
        };
        let typ = (b0 >> 4u8) & 7u8;
        let duration = (((b0 & 0x0fu8) as u16) << 8u16) | (inp[at + 1] as u16);
        let code = inp[at + 2];
        if typ == 1 {
            match MouseButton::from_bits(code) {
                Some(m) => Ok(Event { state, evtype: EventType::Mouse(m), duration }),
                None => Err(CodecError::UnknownActionTag),
            }
        } else if typ == 5 {
            Ok(Event { state, evtype: EventType::Keyboard(code), duration })
        } else if typ == 6 {
            match Modifier::from_bits(code) {
                Some(m) => Ok(Event { state, evtype: EventType::Modifier(m), duration }),
                None => Err(CodecError::UnknownActionTag),
            }
        } else {
            Err(CodecError::UnknownActionTag)
        }
    }

    /// Decodes the event in the first three bytes.
    pub fn parse(inp: &[u8]) -> (r: Result<Event, CodecError>)
        ensures
            inp@.len() < EVENT_LEN ==> r == Err::<Event, CodecError>(CodecError::Truncated),
            inp@.len() >= EVENT_LEN ==> r == event_at(inp@, 0),
    {
        if inp.len() < EVENT_LEN {
            Err(CodecError::Truncated)
        } else {
            Event::parse_at(inp, 0)
        }
    }

    /// Appends the three bytes of this event.
    pub fn put(&self, out: &mut Vec<u8>)
        ensures
            final(out)@ == old(out)@ + event_bytes(*self),
    {
        let st: u8 = match self.state {
            State::Up => 1,
            State::Down => 0,
        };
        let (typ, keycode): (u8, u8) = match self.evtype {
            EventType::Keyboard(c) => (5, c),
            EventType::Modifier(c) => (6, c.bits()),
            EventType::Mouse(c) => (1, c.bits()),
        };
        out.push((st << 7u8) | (typ << 4u8) | (((self.duration >> 8u16) as u8) & 0x0fu8));
        out.push(self.duration as u8);
        out.push(keycode);
        assert(out@ =~= old(out)@ + event_bytes(*self));
    }
}

impl Macro {
    /// Decodes a macro bank record: an 8-byte header, the bank number, a reserved byte,
    /// the event count, then that many events.
    pub fn parse(inp: &[u8]) -> (r: Result<Macro, CodecError>)
        ensures
            match r {
                Ok(m) => spec_macro(inp@) == Ok::<MacroView, CodecError>(m@),
                Err(e) => spec_macro(inp@) == Err::<MacroView, CodecError>(e),
            },
    {
        if inp.len() < MACRO_HEADER_LEN {
            return Err(CodecError::Truncated);
        }
        let count = inp[10] as usize;
        if inp.len() < MACRO_HEADER_LEN + 3 * count {
            return Err(CodecError::Truncated);
        }
        let mut events: Vec<Event> = Vec::new();
        let mut i: usize = 0;
        while i < count
            invariant
                i <= count,
                count == inp@[10],
                MACRO_HEADER_LEN + 3 * count <= inp@.len(),
                events_at(inp@, i as nat) == Ok::<Seq<Event>, CodecError>(events@),
            decreases count - i,
        {
            match Event::parse_at(inp, MACRO_HEADER_LEN + 3 * i) {
                Ok(ev) => {
                    events.push(ev);
                },
                Err(e) => {
                    proof {
                        lemma_events_error_persists(inp@, (i + 1) as nat, count as nat);
                    }
                    return Err(e);
                },
            }
            i = i + 1;
        }
        Ok(Macro { bank_number: inp[8], events })
    }
}

proof fn lemma_events_error_persists(b: Seq<u8>, k: nat, n: nat)
    requires
        k <= n,
        events_at(b, k) is Err,
    ensures
        events_at(b, n) == events_at(b, k),
    decreases n,
{
    if n > k {
        lemma_events_error_persists(b, k, (n - 1) as nat);
    }
}

/// Decoding the bytes of a valid event gives back that event.
pub proof fn lemma_event_round_trip(e: Event)
    requires
        e.is_valid(),
    ensures
        event_at(event_bytes(e), 0) == Ok::<Event, CodecError>(e),
{
    let st: u8 = match e.state {
        State::Up => 1,
        State::Down => 0,
    };
    lemma_event_bits(st, event_type_code(e.evtype), e.duration);
}

proof fn lemma_event_bits(st: u8, ty: u8, d: u16)
    by (bit_vector)
    requires
        st <= 1,
        ty < 8,
        d < 4096,
    ensures
        (((st << 7u8) | (ty << 4u8) | (((d >> 8u16) as u8) & 0x0fu8)) >> 7u8) == st,
        (((st << 7u8) | (ty << 4u8) | (((d >> 8u16) as u8) & 0x0fu8)) >> 4u8) & 7u8 == ty,
        duration_of((st << 7u8) | (ty << 4u8) | (((d >> 8u16) as u8) & 0x0fu8), d as u8) == d,
{
}

} // verus!
