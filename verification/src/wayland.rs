use vstd::prelude::*;

verus! {

/// A request to the thread that talks to the Wayland compositor.
#[derive(Debug)]
pub enum WlCommand {
    /// Replace all idle notifications by one per listed rule:
    /// `(rule index, timeout in milliseconds)`.
    EnterScope(Vec<(usize, u64)>),
}

impl View for WlCommand {
    type V = Seq<(usize, u64)>;

    open spec fn view(&self) -> Seq<(usize, u64)> {
        match self {
            WlCommand::EnterScope(rules) => rules@,
        }
    }
}

/// Why idle notifications could not be created.
#[derive(Debug, Clone, Copy, PartialEq, Eq, Structural)]
pub enum NotifierError {
    /// The compositor announced no `wl_seat`.
    NoSeat,
    /// The compositor announced no `ext_idle_notifier_v1`.
    NoNotifier,
}

/// The timeout that the idle-notify protocol receives: the milliseconds
/// truncated to 32 bits, as an `as u32` cast does.
pub open spec fn protocol_timeout(ms: u64) -> u32 {
    (ms as int % 0x1_0000_0000) as u32
}

/// One notification request per entry of the command, in order, with its
/// timeout truncated to the protocol's 32 bits.
pub open spec fn notification_requests(rules: Seq<(usize, u64)>) -> Seq<(usize, u32)> {
    rules.map_values(|r: (usize, u64)| (r.0, protocol_timeout(r.1)))
}

/// Plans the idle notifications for a command, once the old ones are gone:
/// without a seat or without an idle notifier none can be created (the seat is
/// checked first); otherwise one `(rule index, timeout)` request per entry.
pub fn notification_plan(cmd: &WlCommand, has_seat: bool, has_notifier: bool) -> (res: Result<
    Vec<(usize, u32)>,
    NotifierError,
>)
    ensures
        !has_seat ==> res == Err::<Vec<(usize, u32)>, NotifierError>(NotifierError::NoSeat),
        has_seat && !has_notifier ==> res == Err::<Vec<(usize, u32)>, NotifierError>(
            NotifierError::NoNotifier,
        ),
        has_seat && has_notifier ==> (res matches Ok(v) && v@ == notification_requests(cmd@)),
{
    if !has_seat {
        return Err(NotifierError::NoSeat);
    }
    if !has_notifier {
        return Err(NotifierError::NoNotifier);
    }
    match cmd {
        WlCommand::EnterScope(rules) => {
            let mut out: Vec<(usize, u32)> = Vec::new();
            for i in 0..rules.len()
                invariant
                    out@ == notification_requests(rules@.subrange(0, i as int)),
            {
                let (idx, ms) = rules[i];
                let t: u32 = ms as u32;
                assert(t == protocol_timeout(ms)) by (bit_vector)
                    requires
                        t == ms as u32,
                ;
                out.push((idx, t));
                assert(out@ == notification_requests(rules@.subrange(0, i + 1)));
            }
            assert(rules@.subrange(0, rules.len() as int) == rules@);
            Ok(out)
        },
    }
}

} // verus!
