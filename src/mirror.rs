use vstd::prelude::*;

verus! {

/// One thing that the status subscription hands the listener.
#[derive(Clone, Debug)]
pub enum Delivery<T> {
    /// A message that decoded to this status.
    Status(T),
    /// A message that did not decode as a status.
    Undecodable,
    /// The subscription has ended; no message will follow.
    Closed,
}

/// Why the listener stopped.
#[derive(Clone, Copy, Debug, PartialEq, Eq, Structural)]
pub enum Halt {
    /// A message did not decode. This is fatal to the listener, so that it never
    /// goes on from a status it could not read.
    Undecodable,
    /// The subscription ended.
    Closed,
}

/// What the listener does after one delivery.
#[derive(Clone, Copy, Debug, PartialEq, Eq, Structural)]
pub enum Verdict {
    /// Wait for the next message.
    Continue,
    /// Stop listening, for this reason.
    Stop(Halt),
}

/// The status the mirror holds after `d`, when it held `current`.
pub open spec fn received<T>(current: T, d: Delivery<T>) -> T {
    match d {
        Delivery::Status(s) => s,
        _ => current,
    }
}

/// What the listener does after `d`.
pub open spec fn verdict_of<T>(d: Delivery<T>) -> Verdict {
    match d {
        Delivery::Status(_) => Verdict::Continue,
        Delivery::Undecodable => Verdict::Stop(Halt::Undecodable),
        Delivery::Closed => Verdict::Stop(Halt::Closed),
    }
}

/// The status the mirror holds after the listener, starting from `current`,
/// has taken the deliveries `ds` in order, up to the first one that stops it.
pub open spec fn replay<T>(current: T, ds: Seq<Delivery<T>>) -> T
    decreases ds.len(),
{
    if ds.len() == 0 {
        current
    } else {
        match ds[0] {
            Delivery::Status(s) => replay(s, ds.drop_first()),
            _ => current,
        }
    }
}

/// The latest known status of the device. Each update replaces it whole.
pub struct StatusMirror<T> {
    latest: T,
}

impl<T> StatusMirror<T> {
    /// The status the mirror holds.
    pub closed spec fn current(&self) -> T {
        self.latest
    }

    /// A mirror that holds `initial`.
    pub fn new(initial: T) -> (r: StatusMirror<T>)
        ensures
            r.current() == initial,
    {
        StatusMirror { latest: initial }
    }

    /// The status the mirror holds.
    pub fn latest(&self) -> (r: &T)
        ensures
            *r == self.current(),
    {
        &self.latest
    }

    /// Replaces the status with `status`.
    pub fn store(&mut self, status: T)
        ensures
            final(self).current() == status,
    {
        self.latest = status;
    }

    /// Takes one delivery of the status subscription: a decoded status
    /// replaces the one held; anything else stops the listener and leaves the
    /// mirror as it was.
    pub fn receive(&mut self, d: Delivery<T>) -> (r: Verdict)
        ensures
            final(self).current() == received(old(self).current(), d),
            r == verdict_of(d),
    {
        match d {
            Delivery::Status(s) => {
                self.store(s);
                Verdict::Continue
            },
            Delivery::Undecodable => Verdict::Stop(Halt::Undecodable),
            Delivery::Closed => Verdict::Stop(Halt::Closed),
        }
    }
}

/// Each of `statuses`, delivered in order as decoded messages.
pub open spec fn delivered<T>(statuses: Seq<T>) -> Seq<Delivery<T>> {
    statuses.map_values(|s: T| Delivery::Status(s))
}

/// After any number of decoded statuses, one after the other, the mirror
/// holds the last of them: never an earlier or a partial one.
pub proof fn lemma_last_status_wins<T>(initial: T, statuses: Seq<T>)
    requires
        statuses.len() > 0,
    ensures
        replay(initial, delivered(statuses)) == statuses.last(),
    decreases statuses.len(),
{
    let ds = delivered(statuses);
    let rest = statuses.drop_first();
    assert(ds[0] == Delivery::Status(statuses[0]));
    assert(ds.drop_first() =~= delivered(rest));
    assert(replay(initial, ds) == replay(statuses[0], delivered(rest)));
    if statuses.len() > 1 {
        lemma_last_status_wins(statuses[0], rest);
    } else {
        assert(delivered(rest).len() == 0);
    }
}

/// A delivery that stops the listener leaves the mirror as it was, whatever
/// follows it.
pub proof fn lemma_halt_keeps_status<T>(current: T, ds: Seq<Delivery<T>>)
    requires
        ds.len() > 0,
        verdict_of(ds[0]) != Verdict::Continue,
    ensures
        replay(current, ds) == current,
{
}

/// One step of the replay is one call of `receive`: what `replay` states is
/// what the mirror holds after receiving each delivery in turn.
pub proof fn lemma_replay_step<T>(current: T, ds: Seq<Delivery<T>>)
    requires
        ds.len() > 0,
        verdict_of(ds[0]) == Verdict::Continue,
    ensures
        replay(current, ds) == replay(received(current, ds[0]), ds.drop_first()),
{
}

} // verus!
