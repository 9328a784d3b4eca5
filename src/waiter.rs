//! A value that is either at hand already or still on its way from the host.
use vstd::prelude::*;
use crate::js_convert::{ConversionError, FromJsObject, MaybeFromJsObject};
use crate::js_value::JsValue;

verus! {

/// A reference to an object in the host's table. It owns nothing and may
/// outlive the object.
#[derive(Debug, Clone, Copy, PartialEq, Eq, Structural)]
pub struct HostHandle {
    pub index: i32,
}

/// What went wrong while reading a value from the host.
#[derive(Debug)]
pub enum WaiterError {
    /// The host object had no `waiting` field.
    MissingWaiting,
    /// The host object was done waiting but had no `value` field.
    MissingValue,
    /// The delivered value did not convert.
    Convert(ConversionError),
}

/// The states of a [`Waiter`].
#[derive(Debug)]
pub enum WaiterInner<T> {
    /// The value has been taken out, or never came.
    Taken,
    /// The value is at hand.
    Available(T),
    /// The host is still working on it.
    Waiting(HostHandle),
    /// Reading the value failed.
    Error(WaiterError),
}

/// Something that waits on a value from the host, or has it at once from a
/// desktop API. It hands the value out at most once.
#[derive(Debug)]
pub struct Waiter<T> {
    inner: WaiterInner<T>,
}

/// One poll without news from the host: the state after it, and what it
/// hands out.
pub open spec fn poll_spec<T>(s: WaiterInner<T>) -> (WaiterInner<T>, Option<T>) {
    match s {
        WaiterInner::Available(v) => (WaiterInner::Taken, Some(v)),
        _ => (s, None),
    }
}

/// Whether one poll that sees the host object `seen` may take the state
/// `before` to `after` and hand out `out`.
pub open spec fn poll_with_spec<T: FromJsObject>(
    before: WaiterInner<T>,
    seen: JsValue,
    after: WaiterInner<T>,
    out: Option<T>,
) -> bool {
    match before {
        WaiterInner::Waiting(_) => match seen.field_spec("waiting"@) {
            None => out is None && after matches WaiterInner::Error(WaiterError::MissingWaiting),
            Some(flag) => if flag.truthy_spec() {
                out is None && after == before
            } else {
                match seen.field_spec("value"@) {
                    None => out is None && after matches WaiterInner::Error(
                        WaiterError::MissingValue,
                    ),
                    Some(v) => match T::decoded(v) {
                        Some(x) => out == Some(x) && after is Taken,
                        None => out is None && (after matches WaiterInner::Error(
                            WaiterError::Convert(e),
                        ) && T::rejects(v, e)),
                    },
                }
            },
        },
        _ => (after, out) == poll_spec(before),
    }
}

/// Whether `flag` is set in the host object `seen`.
pub open spec fn still_waiting(seen: JsValue) -> bool {
    seen.field_spec("waiting"@) matches Some(flag) && flag.truthy_spec()
}

/// Whether `states` and `outs` are what a run of polls that sees the host
/// objects `seen`, one per poll, may go through and hand out.
pub open spec fn polled_run<T: FromJsObject>(
    states: Seq<WaiterInner<T>>,
    seen: Seq<JsValue>,
    outs: Seq<Option<T>>,
) -> bool {
    &&& states.len() == seen.len() + 1
    &&& outs.len() == seen.len()
    &&& forall|i: int|
        0 <= i < seen.len() ==> #[trigger] poll_with_spec(states[i], seen[i], states[i + 1], outs[i])
}

/// A pending waiter hands out nothing and stays pending while the host's
/// `waiting` flag is set.
pub proof fn lemma_nothing_while_waiting<T: FromJsObject>(
    states: Seq<WaiterInner<T>>,
    seen: Seq<JsValue>,
    outs: Seq<Option<T>>,
)
    requires
        polled_run(states, seen, outs),
        states[0] is Waiting,
        forall|i: int| 0 <= i < seen.len() ==> #[trigger] still_waiting(seen[i]),
    ensures
        forall|i: int| 0 <= i < outs.len() ==> #[trigger] outs[i] is None,
        forall|i: int| 0 <= i < states.len() ==> #[trigger] states[i] == states[0],
    decreases seen.len(),
{
    if seen.len() > 0 {
        let n = seen.len() - 1;
        let s2 = states.drop_last();
        let v2 = seen.drop_last();
        let o2 = outs.drop_last();
        assert forall|i: int| 0 <= i < v2.len() implies #[trigger] poll_with_spec(
            s2[i],
            v2[i],
            s2[i + 1],
            o2[i],
        ) by {
            assert(poll_with_spec(states[i], seen[i], states[i + 1], outs[i]));
        }
        assert forall|i: int| 0 <= i < v2.len() implies #[trigger] still_waiting(v2[i]) by {
            assert(still_waiting(seen[i]));
        }
        lemma_nothing_while_waiting(s2, v2, o2);
        assert(s2[n] == states[n]);
        assert(poll_with_spec(states[n], seen[n], states[n + 1], outs[n]));
        assert(still_waiting(seen[n]));
        assert forall|i: int| 0 <= i < outs.len() implies #[trigger] outs[i] is None by {
            if i < n {
                assert(o2[i] == outs[i]);
            }
        }
        assert forall|i: int| 0 <= i < states.len() implies #[trigger] states[i] == states[0] by {
            if i <= n {
                assert(s2[i] == states[i]);
            }
        }
    }
}

/// A waiter that has failed hands out nothing at any later poll, whatever
/// the host shows it.
pub proof fn lemma_failure_is_final<T: FromJsObject>(
    states: Seq<WaiterInner<T>>,
    seen: Seq<JsValue>,
    outs: Seq<Option<T>>,
)
    requires
        polled_run(states, seen, outs),
        states[0] is Error,
    ensures
        forall|i: int| 0 <= i < outs.len() ==> #[trigger] outs[i] is None,
        forall|i: int| 0 <= i < states.len() ==> #[trigger] states[i] == states[0],
    decreases seen.len(),
{
    if seen.len() > 0 {
        let n = seen.len() - 1;
        let s2 = states.drop_last();
        let v2 = seen.drop_last();
        let o2 = outs.drop_last();
        assert forall|i: int| 0 <= i < v2.len() implies #[trigger] poll_with_spec(
            s2[i],
            v2[i],
            s2[i + 1],
            o2[i],
        ) by {
            assert(poll_with_spec(states[i], seen[i], states[i + 1], outs[i]));
        }
        lemma_failure_is_final(s2, v2, o2);
        assert(s2[n] == states[n]);
        assert(poll_with_spec(states[n], seen[n], states[n + 1], outs[n]));
        assert forall|i: int| 0 <= i < outs.len() implies #[trigger] outs[i] is None by {
            if i < n {
                assert(o2[i] == outs[i]);
            }
        }
        assert forall|i: int| 0 <= i < states.len() implies #[trigger] states[i] == states[0] by {
            if i <= n {
                assert(s2[i] == states[i]);
            }
        }
    }
}

/// The state after `n` polls without news from the host.
pub open spec fn after_polls<T>(s: WaiterInner<T>, n: nat) -> WaiterInner<T>
    decreases n,
{
    if n == 0 {
        s
    } else {
        after_polls(poll_spec(s).0, (n - 1) as nat)
    }
}

/// Polls leave a waiter whose value is taken as it is.
proof fn lemma_taken_stays<T>(n: nat)
    ensures
        after_polls(WaiterInner::<T>::Taken, n) == WaiterInner::<T>::Taken,
    decreases n,
{
    if n > 0 {
        lemma_taken_stays::<T>((n - 1) as nat);
    }
}

/// A value placed in a waiter comes out at the first poll, and every poll
/// after that (the poll after `later` more) hands out nothing.
pub proof fn lemma_delivered_once<T>(v: T, later: nat)
    ensures
        poll_spec(WaiterInner::Available(v)) == (WaiterInner::<T>::Taken, Some(v)),
        poll_spec(after_polls(WaiterInner::Available(v), later + 1)).1 is None,
{
    lemma_taken_stays::<T>(later);
    assert(after_polls(WaiterInner::Available(v), later + 1) == after_polls(
        WaiterInner::<T>::Taken,
        later,
    ));
}

impl<T> View for Waiter<T> {
    type V = WaiterInner<T>;

    closed spec fn view(&self) -> WaiterInner<T> {
        self.inner
    }
}

impl<T> Waiter<T> {
    /// A waiter that has its value already.
    pub fn new_immediate(val: T) -> (r: Self)
        ensures
            r@ == WaiterInner::Available(val),
    {
        Waiter { inner: WaiterInner::Available(val) }
    }

    /// A waiter for the host object behind `handle`.
    pub fn new_waiting(handle: HostHandle) -> (r: Self)
        ensures
            r@ == WaiterInner::<T>::Waiting(handle),
    {
        Waiter { inner: WaiterInner::Waiting(handle) }
    }

    /// A waiter that never hands out a value.
    pub fn new_empty() -> (r: Self)
        ensures
            r@ == WaiterInner::<T>::Taken,
    {
        Waiter { inner: WaiterInner::Taken }
    }

    /// Takes the value out if it is at hand. A waiter that is still waiting on
    /// the host stays as it is: see [`Waiter::try_get_with`].
    pub fn try_get(&mut self) -> (r: Option<T>)
        ensures
            (final(self)@, r) == poll_spec(old(self)@),
    {
        let mut taken = Waiter { inner: WaiterInner::Taken };
        std::mem::swap(self, &mut taken);
        match taken.inner {
            WaiterInner::Available(v) => Some(v),
            other => {
                self.inner = other;
                None
            },
        }
    }

}

impl<T: MaybeFromJsObject> Waiter<T> {
    /// Polls once, where `seen` is the host object behind the handle as it
    /// is now, with its `waiting` flag and, once that clears, its `value`.
    ///
    /// While the flag is set nothing changes. Once it clears, the value is
    /// converted and handed out; a missing field or a failed conversion
    /// leaves the waiter failed for good.
    pub fn try_get_with(&mut self, seen: JsValue) -> (r: Option<T>)
        ensures
            poll_with_spec(old(self)@, seen, final(self)@, r),
    {
        match self.inner {
            WaiterInner::Waiting(_) => {},
            _ => {
                return self.try_get();
            },
        }
        let waiting = match seen.try_get_field("waiting") {
            Some(flag) => flag.truthy(),
            None => {
                self.inner = WaiterInner::Error(WaiterError::MissingWaiting);
                return None;
            },
        };
        if waiting {
            return None;
        }
        match seen.into_field("value") {
            Some(v) => match T::from_js(v) {
                Ok(x) => {
                    self.inner = WaiterInner::Taken;
                    Some(x)
                },
                Err(e) => {
                    self.inner = WaiterInner::Error(WaiterError::Convert(e));
                    None
                },
            },
            None => {
                self.inner = WaiterInner::Error(WaiterError::MissingValue);
                None
            },
        }
    }
}

} // verus!
