use crate::mqtt::MQTTStatusCode;
use vstd::prelude::*;

verus! {

/// What a high-level operation can fail with; `E` is the AT client's error.
#[derive(Clone, Debug, PartialEq, Eq)]
#[non_exhaustive]
pub enum Error<E> {
    /// The AT client failed: transport, codec, timeout or `+CME ERROR`.
    AT(E),
    /// A wait for a report ran out of time.
    Timeout,
    /// The modem clock could not be synchronised.
    ClockSynchronization,
    /// The broker session failed with this status.
    MQTT(MQTTStatusCode),
}

impl<E> From<E> for Error<E> {
    fn from(err: E) -> (r: Error<E>) {
        Error::AT(err)
    }
}

impl<E> vstd::std_specs::convert::FromSpecImpl<E> for Error<E> {
    open spec fn obeys_from_spec() -> bool {
        true
    }

    open spec fn from_spec(err: E) -> Error<E> {
        Error::AT(err)
    }
}

} // verus!
