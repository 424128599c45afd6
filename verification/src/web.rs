use vstd::prelude::*;

verus! {

/// The latest vehicle telemetry that the backend received, if any.
pub struct TelemetryStore<T> {
    latest: Option<T>,
}

impl<T> View for TelemetryStore<T> {
    type V = Option<T>;

    closed spec fn view(&self) -> Option<T> {
        self.latest
    }
}

/// The store's content after `payload` is received.
pub open spec fn received<T>(before: Option<T>, payload: T) -> Option<T> {
    Some(payload)
}

/// What a read of the store gives.
pub open spec fn read<T>(stored: Option<T>) -> Option<T> {
    stored
}

impl<T> TelemetryStore<T> {
    /// A store that has received nothing yet.
    pub fn new() -> (store: TelemetryStore<T>)
        ensures
            store@ is None,
    {
        TelemetryStore { latest: None }
    }
}

/// Records `payload` as the latest telemetry, replacing what was there, and
/// answers `"Vehicle data updated"`.
pub fn send_vehicle_data<T>(data: &mut TelemetryStore<T>, payload: T) -> (reply: Result<
    &'static str,
    (),
>)
    ensures
        final(data)@ == received(old(data)@, payload),
        reply matches Ok(text) && text@ == "Vehicle data updated"@,
{
    data.latest = Some(payload);
    Ok("Vehicle data updated")
}

/// The latest telemetry, or nothing when none was received yet.
pub fn get_vehicle_data<T>(data: &TelemetryStore<T>) -> (latest: Option<&T>)
    ensures
        latest is None <==> read(data@) is None,
        latest matches Some(v) ==> read(data@) == Some(*v),
{
    match &data.latest {
        Some(v) => Some(v),
        None => None,
    }
}

/// A read after a write gives back what was written, whatever was stored
/// before.
pub proof fn lemma_read_after_write<T>(before: Option<T>, payload: T)
    ensures
        read(received(before, payload)) == Some(payload),
{
}

/// Of two writes, the later one wins.
pub proof fn lemma_last_write_wins<T>(before: Option<T>, first: T, second: T)
    ensures
        received(received(before, first), second) == received(before, second),
{
}

} // verus!
