//! A typed, in-process publish/subscribe bus, and the decisions of the tasks
//! around it.
//!
//! [`broker`] is the bus: a [`Topic`] holds the most recent value published
//! to it and fans every new value out to its subscribers, natively or as
//! bytes. [`gpio`], [`network`] and [`screensaver`] hold what the producers
//! and consumers of the bus decide, free of the waiting and the devices that
//! surround them.

pub mod broker;
pub mod gpio;
pub mod network;
pub mod screensaver;

pub use broker::codec::DecodeError;
pub use broker::model::{Frame, TopicName};
pub use broker::queue::{backpressure, Delivery, Verdict};
pub use broker::retained::RetainedValue;
pub use broker::topic::{
    AnySubscriptionHandle, AnyTopic, Fetch, Native, Serialized, SubscriptionHandle, Topic,
};
pub use gpio::{
    find_line, ChannelUpdate, DemoChannel, EventRequestFlags, EventType, FindDecoy, LineEvent,
    LineEventHandle, LineHandle, LineRequestFlags,
};
pub use network::{get_ip4_address, IpStream, LinkChange, LinkInfo, LinkStream, NetworkError};
