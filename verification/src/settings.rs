//! The user's settings, and the messages that the interface and the pinging
//! thread exchange.
//!
//! The three fractional settings (seconds between pings, seconds before a ping
//! times out, and the plot's aspect ratio) have the number type `F`: the
//! library carries and stores such values but never computes with them.
use vstd::prelude::*;

verus! {

/// The address that is pinged until the user picks another one.
pub const DEFAULT_PING_ADDRESS: &'static str = "8.8.8.8";

/// How many points the plot keeps until the user picks another number.
pub const DEFAULT_MAX_PLOT_POINTS: usize = 30;

/// What the user has chosen.
pub struct Settings<F> {
    /// Seconds between the starts of two pings.
    pub ping_interval: F,
    /// Seconds a ping waits for its reply.
    pub ping_timeout: F,
    /// The host that is pinged.
    pub ping_address: String,
    /// How many points the plot keeps (one more can stand for a moment).
    pub max_plot_points: usize,
    /// Width over height of the plot.
    pub plot_aspect_ratio: F,
    /// Set when the settings were saved and the pinging thread has not been
    /// told yet; never written to the settings file.
    pub update: bool,
}

impl<F> Settings<F> {
    /// The settings with the default address and plot size, the given
    /// fractional values, and nothing pending.
    pub fn with_values(ping_interval: F, ping_timeout: F, plot_aspect_ratio: F) -> (r: Self)
        ensures
            r.ping_interval == ping_interval,
            r.ping_timeout == ping_timeout,
            r.ping_address@ == DEFAULT_PING_ADDRESS@,
            r.max_plot_points == DEFAULT_MAX_PLOT_POINTS,
            r.plot_aspect_ratio == plot_aspect_ratio,
            !r.update,
    {
        Settings {
            ping_interval,
            ping_timeout,
            ping_address: String::from_str(DEFAULT_PING_ADDRESS),
            max_plot_points: DEFAULT_MAX_PLOT_POINTS,
            plot_aspect_ratio,
            update: false,
        }
    }
}

impl<F: Copy> Clone for Settings<F> {
    fn clone(&self) -> (r: Self)
        ensures
            r == *self,
    {
        Settings {
            ping_interval: self.ping_interval,
            ping_timeout: self.ping_timeout,
            ping_address: self.ping_address.clone(),
            max_plot_points: self.max_plot_points,
            plot_aspect_ratio: self.plot_aspect_ratio,
            update: self.update,
        }
    }
}

/// What travels between the interface and the pinging thread.
pub enum ChannelMessage<F> {
    /// New settings for the pinging thread.
    Settings { settings: Settings<F> },
    /// The outcome of one ping of `ping_address`: the round trip in whole
    /// milliseconds, or `Err` when no reply came.
    Update { ping_address: String, ping_result: Result<u64, ()> },
}

} // verus!
