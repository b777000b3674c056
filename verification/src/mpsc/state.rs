//! The channel's state word: an open flag in the top bit and a message
//! count in the bits below it.

use vstd::prelude::*;

verus! {

/// The open flag: the most significant bit of the state word.
pub const OPEN_MASK: usize = !(!0usize >> 1);

/// A new channel is open and holds no message.
pub const INIT_STATE: usize = OPEN_MASK;

/// The largest message count that the state word can hold.
pub const MAX_CAPACITY: usize = !(OPEN_MASK);

/// The largest buffer that a bounded channel may be given.
pub const MAX_BUFFER: usize = MAX_CAPACITY >> 1;

/// The decoded form of a state word.
#[derive(Clone, Copy, Debug)]
pub struct State {
    /// `true` while the channel is open.
    pub is_open: bool,
    /// The number of messages counted into the channel.
    pub num_messages: usize,
}

impl State {
    /// A count that fits below the open flag.
    pub open spec fn valid(self) -> bool {
        self.num_messages <= MAX_CAPACITY
    }
}

/// What a state word stands for: the flag is the top bit, the count is the
/// rest.
pub open spec fn decode(num: usize) -> State {
    if num >= OPEN_MASK {
        State { is_open: true, num_messages: (num - OPEN_MASK) as usize }
    } else {
        State { is_open: false, num_messages: num }
    }
}

/// The state word of a state: the count, with the top bit set if open.
pub open spec fn encode(state: State) -> usize {
    if state.is_open && state.num_messages < OPEN_MASK {
        (state.num_messages + OPEN_MASK) as usize
    } else {
        state.num_messages
    }
}

/// Splits a state word into the open flag and the message count.
pub fn decode_state(num: usize) -> (state: State)
    ensures
        state == decode(num),
        state.valid(),
{
    proof {
        lemma_constants();
    }
    assert(num & OPEN_MASK == OPEN_MASK <==> num >= OPEN_MASK) by (bit_vector);
    assert(num & MAX_CAPACITY == if num >= OPEN_MASK {
        (num - OPEN_MASK) as usize
    } else {
        num
    }) by (bit_vector);
    State { is_open: num & OPEN_MASK == OPEN_MASK, num_messages: num & MAX_CAPACITY }
}

/// Packs the open flag and the message count into one state word.
pub fn encode_state(state: &State) -> (num: usize)
    ensures
        num == encode(*state),
{
    let mut num: usize = state.num_messages;
    if state.is_open {
        assert(num | OPEN_MASK == if num < OPEN_MASK {
            (num + OPEN_MASK) as usize
        } else {
            num
        }) by (bit_vector);
        num |= OPEN_MASK;
    }
    num
}

/// The state word after one more message has been counted into an open
/// channel, with the new count; nothing for a closed channel. The count of
/// an open channel must have room for one more.
pub fn increment(num: usize) -> (r: Option<(usize, usize)>)
    requires
        decode(num).is_open ==> decode(num).num_messages < MAX_CAPACITY,
    ensures
        r == (if decode(num).is_open {
            Some(
                (
                    encode(
                        State {
                            is_open: true,
                            num_messages: (decode(num).num_messages + 1) as usize,
                        },
                    ),
                    (decode(num).num_messages + 1) as usize,
                ),
            )
        } else {
            None
        }),
        r matches Some((next, count)) ==> decode(next) == (State {
            is_open: true,
            num_messages: count,
        }),
{
    let mut state = decode_state(num);

    // The receiver end closed the channel.
    if !state.is_open {
        return None;
    }
    proof {
        lemma_constants();
    }
    state.num_messages += 1;

    let next = encode_state(&state);
    Some((next, state.num_messages))
}

/// The state word after one more message has been counted into an open
/// channel whose count wraps below the open flag; nothing for a closed
/// channel.
pub fn increment_wrapping(num: usize) -> (r: Option<usize>)
    ensures
        r == (if decode(num).is_open {
            Some(
                encode(
                    State {
                        is_open: true,
                        num_messages: ((decode(num).num_messages + 1) % (OPEN_MASK as int)) as usize,
                    },
                ),
            )
        } else {
            None
        }),
        r matches Some(next) ==> decode(next) == (State {
            is_open: true,
            num_messages: ((decode(num).num_messages + 1) % (OPEN_MASK as int)) as usize,
        }),
{
    let mut state = decode_state(num);

    // The receiver end closed the channel.
    if !state.is_open {
        return None;
    }
    proof {
        lemma_constants();
    }
    let count: usize = state.num_messages;
    assert((count + 1) as usize & !OPEN_MASK == (count + 1) % (OPEN_MASK as int)) by (bit_vector)
        requires
            count <= MAX_CAPACITY,
    ;

    // Won't overflow
    state.num_messages = (state.num_messages + 1) & !OPEN_MASK;

    Some(encode_state(&state))
}

/// The state word after one message has been taken off the count, which
/// must not be zero. The open flag stays.
pub fn decrement(num: usize) -> (next: usize)
    requires
        decode(num).num_messages > 0,
    ensures
        decode(next) == (State {
            is_open: decode(num).is_open,
            num_messages: (decode(num).num_messages - 1) as usize,
        }),
{
    // OPEN_MASK is highest bit, so it's unaffected by subtraction
    // unless there's underflow, and we know there's no underflow
    // because number of messages at this point is always > 0.
    num - 1
}

/// The state word of the closed channel: the open flag is cleared and the
/// count stays. To close a closed channel changes nothing.
pub fn close(num: usize) -> (next: usize)
    ensures
        decode(next) == (State { is_open: false, num_messages: decode(num).num_messages }),
        !decode(num).is_open ==> next == num,
{
    if !decode_state(num).is_open {
        return num;
    }
    proof {
        lemma_constants();
    }
    assert(num & !OPEN_MASK == if num >= OPEN_MASK {
        (num - OPEN_MASK) as usize
    } else {
        num
    }) by (bit_vector);
    num & !OPEN_MASK
}

/// Decoding an encoded state gives the state back, as long as the count
/// fits below the open flag.
pub proof fn lemma_decode_encode(state: State)
    requires
        state.valid(),
    ensures
        decode(encode(state)) == state,
{
    lemma_constants();
}

/// Encoding a decoded word gives the word back.
pub proof fn lemma_encode_decode(num: usize)
    ensures
        encode(decode(num)) == num,
        decode(num).valid(),
{
    lemma_constants();
}

/// The constants related by plain arithmetic.
pub proof fn lemma_constants()
    ensures
        OPEN_MASK == MAX_CAPACITY + 1,
        MAX_BUFFER == MAX_CAPACITY / 2,
        OPEN_MASK + MAX_CAPACITY == usize::MAX,
        MAX_BUFFER + MAX_BUFFER + 1 == MAX_CAPACITY,
{
    assert(OPEN_MASK == MAX_CAPACITY + 1) by (bit_vector);
    assert(MAX_BUFFER == MAX_CAPACITY / 2) by (bit_vector);
    assert(MAX_BUFFER + MAX_BUFFER + 1 == MAX_CAPACITY) by (bit_vector);
    let all: usize = OPEN_MASK | MAX_CAPACITY;
    assert(all == OPEN_MASK + MAX_CAPACITY) by (bit_vector)
        requires
            all == OPEN_MASK | MAX_CAPACITY,
    ;
    let top: usize = usize::MAX;
    assert(top <= OPEN_MASK + MAX_CAPACITY) by (bit_vector);
}

} // verus!
