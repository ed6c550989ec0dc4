//! Prediction of visible overflight events ("spots") of an orbiting object
//! for a fixed ground location: the value types, the darkness test, the pure
//! queries over a chronologically ordered list of events, the single-producer
//! result channel a background poller publishes on, and the decision logic of
//! one poll iteration. The network fetch, the JSON wire decoding and the
//! background thread itself live outside this library and only hand plain
//! values in.

mod api;
mod channel;
mod poller;
mod spot;

pub use api::Pass;
pub use channel::PollOutcome;
pub use channel::ResultChannel;
pub use channel::lemma_channel_fifo;
pub use poller::FacadeStep;
pub use poller::FetchEvent;
pub use poller::PollStep;
pub use poller::facade_step;
pub use poller::poll_step;
pub use poller::publish_step;
pub use poller::spot_of_pass;
pub use poller::spots_of_passes;
pub use spot::DateTime;
pub use spot::DayTime;
pub use spot::Duration;
pub use spot::Spot;
pub use spot::find_current;
pub use spot::find_upcoming;
pub use spot::from_utc_timestamp;
pub use spot::upcoming_ok;
pub use spot::window_of;
pub use spot::lemma_upcoming_ok_no_window;
pub use spot::lemma_upcoming_ok_window;
pub use spot::lemma_window_bounds_are_day;
