//! The main screen: the texts that describe the latest ping.
use vstd::prelude::*;

use crate::decimal::{decimal, format_decimal};
use crate::ping_data::PingData;
use crate::settings::Settings;

verus! {

/// What the main screen says about the newest sample: nothing yet, a lost
/// ping, or the round trip in milliseconds.
pub open spec fn ping_label_text(s: Seq<Option<u64>>) -> Seq<char> {
    if s.len() == 0 {
        "Waiting..."@
    } else {
        match s.last() {
            None => "Error"@,
            Some(ms) => decimal(ms as nat) + "ms"@,
        }
    }
}

/// The main screen.
pub struct MainMenu {}

impl MainMenu {
    pub fn new() -> (r: Self) {
        MainMenu {  }
    }

    /// The description of the newest sample.
    pub fn ping_label<F>(&self, ping_data: &PingData<F>) -> (r: String)
        ensures
            r@ == ping_label_text(ping_data@),
    {
        match ping_data.last_sample() {
            None => String::from_str("Waiting..."),
            Some(None) => String::from_str("Error"),
            Some(Some(ms)) => {
                let mut l = format_decimal(ms as u128);
                l.append("ms");
                l
            },
        }
    }

    /// The line that names the pinged address.
    pub fn address_line<F>(&self, settings: &Settings<F>) -> (r: String)
        ensures
            r@ == "Address: "@ + settings.ping_address@,
    {
        let mut l = String::from_str("Address: ");
        l.append(settings.ping_address.as_str());
        l
    }

    /// The line that describes the newest sample.
    pub fn ping_line<F>(&self, ping_data: &PingData<F>) -> (r: String)
        ensures
            r@ == "Ping: "@ + ping_label_text(ping_data@),
    {
        let mut l = String::from_str("Ping: ");
        let label = self.ping_label(ping_data);
        l.append(label.as_str());
        l
    }
}

} // verus!
