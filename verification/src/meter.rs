//! The state of the monitor's window and how it reacts to the pinging thread
//! and to the user.
use vstd::prelude::*;

use crate::channel::DualChannel;
use crate::decimal::decimal;
use crate::main_menu::MainMenu;
use crate::menu::{other_menu, Menu};
use crate::ping_data::{recorded, stats_of, PingData};
use crate::settings::{ChannelMessage, Settings};
use crate::settings_menu::SettingsMenu;
use vstd::string::to_string_from_display_ensures;

verus! {

/// The sample that a ping result stands for.
pub open spec fn sample_of(ping_result: Result<u64, ()>) -> Option<u64> {
    match ping_result {
        Ok(ms) => Some(ms),
        Err(()) => None,
    }
}

/// `s` with its mark for the pinging thread cleared.
pub open spec fn unmarked<F>(s: Settings<F>) -> Settings<F> {
    Settings { update: false, ..s }
}

/// The message that hands `s` to the pinging thread.
pub open spec fn settings_message<F>(s: Settings<F>) -> ChannelMessage<F> {
    ChannelMessage::Settings { settings: s }
}

/// Law: a ping result for the current address always lands in the history as
/// its newest sample; a lost ping becomes a lost sample and a reply its
/// milliseconds, and the history grows by one unless it was over the limit.
pub proof fn lemma_result_becomes_newest_sample(
    history: Seq<Option<u64>>,
    ping_result: Result<u64, ()>,
    max_plot_points: usize,
)
    ensures
        ({
            let h = recorded(history, sample_of(ping_result), max_plot_points);
            &&& h.last() is None <==> ping_result is Err
            &&& ping_result matches Ok(ms) ==> h.last() == Some(ms)
            &&& h.len() == (if history.len() > max_plot_points {
                history.len()
            } else {
                history.len() + 1
            })
        }),
{
}

/// Whether `data` is a ping result for the address `address`.
pub open spec fn is_update_for<F>(data: ChannelMessage<F>, address: Seq<char>) -> bool {
    data matches ChannelMessage::Update { ping_address, .. } && ping_address@ == address
}

/// The monitor's window: its screens, its end of the connection to the pinging
/// thread, the samples, and the settings.
#[verifier::reject_recursive_types(F)]
pub struct App<F> {
    pub main_menu: MainMenu,
    pub settings_menu: SettingsMenu,
    pub current_menu: Menu,
    pub ping_channel: DualChannel<ChannelMessage<F>>,
    pub ping_data: PingData<F>,
    pub settings: Settings<F>,
}

impl<F> App<F> {
    /// A window on the main screen with no samples, the given settings, and
    /// the given end of the connection to the pinging thread.
    pub fn new(settings: Settings<F>, ping_channel: DualChannel<ChannelMessage<F>>) -> (r: Self)
        ensures
            r.current_menu == Menu::Main,
            r.settings == settings,
            r.ping_channel == ping_channel,
            r.settings_menu.ping_interval@.len() == 0,
            r.settings_menu.ping_timeout@.len() == 0,
            r.settings_menu.ping_address@.len() == 0,
            r.settings_menu.max_plot_points@.len() == 0,
            r.settings_menu.plot_aspect_ratio@.len() == 0,
            r.settings_menu.error@.len() == 0,
            r.ping_data.wf(),
            r.ping_data@.len() == 0,
            r.ping_data.spec_stats() is None,
    {
        App {
            main_menu: MainMenu::new(),
            settings_menu: SettingsMenu::new(),
            current_menu: Menu::Main,
            ping_channel,
            ping_data: PingData::new(),
            settings,
        }
    }

    /// Shows `menu`. Entering the settings screen fills its form from the
    /// current settings; asking for the screen already shown changes nothing.
    pub fn set_menu(&mut self, menu: Menu)
        where F: std::fmt::Display,
        ensures
            final(self).current_menu == menu,
            final(self).settings == old(self).settings,
            final(self).ping_channel == old(self).ping_channel,
            final(self).ping_data == old(self).ping_data,
            (menu == Menu::Settings && old(self).current_menu != Menu::Settings) ==> {
                let form = final(self).settings_menu;
                &&& to_string_from_display_ensures::<F>(&old(self).settings.ping_interval, form.ping_interval)
                &&& to_string_from_display_ensures::<F>(&old(self).settings.ping_timeout, form.ping_timeout)
                &&& form.ping_address@ == old(self).settings.ping_address@
                &&& form.max_plot_points@ == decimal(old(self).settings.max_plot_points as nat)
                &&& to_string_from_display_ensures::<F>(&old(self).settings.plot_aspect_ratio, form.plot_aspect_ratio)
                &&& form.error@.len() == 0
            },
            !(menu == Menu::Settings && old(self).current_menu != Menu::Settings)
                ==> final(self).settings_menu == old(self).settings_menu,
    {
        if menu != self.current_menu {
            self.current_menu = menu;
            if menu == Menu::Settings {
                self.settings_menu.on_enabled(&self.settings);
            }
        }
    }

    /// The screen that the toggle button leads to, and its caption.
    pub fn menu_button(&self) -> (r: (Menu, &'static str))
        ensures
            r.0 == other_menu(self.current_menu),
            r.1@ == (match self.current_menu {
                Menu::Main => "Settings"@,
                Menu::Settings => "Back"@,
            }),
    {
        self.current_menu.toggle_target()
    }
}

impl<F: Copy> App<F> {
    /// Draws the statistics from the samples under the current timeout.
    pub fn calculate_ping_stats(&mut self)
        ensures
            final(self).ping_data@ == old(self).ping_data@,
            old(self).ping_data@.len() > 0 ==> final(self).ping_data.spec_stats() == Some(
                stats_of(old(self).ping_data@, old(self).settings.ping_timeout),
            ),
            old(self).ping_data@.len() == 0 ==> final(self).ping_data.spec_stats()
                == old(self).ping_data.spec_stats(),
            final(self).settings == old(self).settings,
            final(self).current_menu == old(self).current_menu,
            final(self).settings_menu == old(self).settings_menu,
            final(self).ping_channel == old(self).ping_channel,
    {
        self.ping_data.calculate_ping_stats(self.settings.ping_timeout);
    }

    /// Records a ping result for the current address (dropping the oldest
    /// sample when more than the allowed number are kept) and draws the
    /// statistics again; results for another address and settings messages
    /// change nothing.
    pub fn on_receive_channel_data(&mut self, data: &ChannelMessage<F>)
        ensures
            final(self).settings == old(self).settings,
            final(self).current_menu == old(self).current_menu,
            final(self).settings_menu == old(self).settings_menu,
            final(self).ping_channel == old(self).ping_channel,
            is_update_for(*data, old(self).settings.ping_address@) ==> {
                &&& final(self).ping_data.wf()
                &&& final(self).ping_data@ == recorded(
                    old(self).ping_data@,
                    sample_of(data->ping_result),
                    old(self).settings.max_plot_points,
                )
                &&& final(self).ping_data.spec_stats() == Some(
                    stats_of(final(self).ping_data@, old(self).settings.ping_timeout),
                )
            },
            !is_update_for(*data, old(self).settings.ping_address@) ==> final(self).ping_data
                == old(self).ping_data,
    {
        match data {
            ChannelMessage::Update { ping_address, ping_result } => {
                if *ping_address == self.settings.ping_address {
                    let sample = match ping_result {
                        Ok(ms) => Some(*ms),
                        Err(_) => None,
                    };
                    self.ping_data.record(
                        sample,
                        self.settings.max_plot_points,
                        self.settings.ping_timeout,
                    );
                }
            },
            _ => {},
        }
    }

    /// Takes a waiting message from the pinging thread, if there is one, and
    /// reacts to it as `on_receive_channel_data` does; the result is the
    /// message taken. Whatever came, at most one sample was recorded, under
    /// the current settings.
    pub fn poll_channel(&mut self) -> (r: Option<ChannelMessage<F>>)
        ensures
            final(self).settings == old(self).settings,
            final(self).current_menu == old(self).current_menu,
            final(self).settings_menu == old(self).settings_menu,
            final(self).ping_channel == old(self).ping_channel,
            final(self).ping_data == old(self).ping_data || exists|sample: Option<u64>|
                {
                    &&& final(self).ping_data.wf()
                    &&& #[trigger] final(self).ping_data@ == recorded(
                        old(self).ping_data@,
                        sample,
                        old(self).settings.max_plot_points,
                    )
                    &&& final(self).ping_data.spec_stats() == Some(
                        stats_of(final(self).ping_data@, old(self).settings.ping_timeout),
                    )
                },
            r is None ==> final(self).ping_data == old(self).ping_data,
            r matches Some(m) ==> (is_update_for(m, old(self).settings.ping_address@) ==> {
                &&& final(self).ping_data.wf()
                &&& final(self).ping_data@ == recorded(
                    old(self).ping_data@,
                    sample_of(m->ping_result),
                    old(self).settings.max_plot_points,
                )
                &&& final(self).ping_data.spec_stats() == Some(
                    stats_of(final(self).ping_data@, old(self).settings.ping_timeout),
                )
            }),
            r matches Some(m) ==> (!is_update_for(m, old(self).settings.ping_address@)
                ==> final(self).ping_data == old(self).ping_data),
    {
        match self.ping_channel.try_receive() {
            Ok(val) => {
                self.on_receive_channel_data(&val);
                Some(val)
            },
            Err(_) => None,
        }
    }

    /// Takes the settings message that is due: the settings (still marked)
    /// when they were saved since the last time, or nothing; the mark is
    /// cleared either way.
    pub fn pending_settings_message(&mut self) -> (m: Option<ChannelMessage<F>>)
        ensures
            m == (if old(self).settings.update {
                Some(settings_message(old(self).settings))
            } else {
                None
            }),
            final(self).settings == unmarked(old(self).settings),
            final(self).ping_data == old(self).ping_data,
            final(self).current_menu == old(self).current_menu,
            final(self).settings_menu == old(self).settings_menu,
            final(self).ping_channel == old(self).ping_channel,
    {
        if self.settings.update {
            let m = ChannelMessage::Settings { settings: self.settings.clone() };
            self.settings.update = false;
            Some(m)
        } else {
            None
        }
    }

    /// Sends the settings to the pinging thread when they were saved since the
    /// last time, and clears the mark. The result is `None` when nothing was
    /// due, or what the send gave: the channel took the settings message (it
    /// joins the sent messages), or it came back because the thread is gone.
    pub fn send_settings_if_updated(&mut self) -> (r: Option<Result<(), ChannelMessage<F>>>)
        ensures
            r is None <==> !old(self).settings.update,
            r matches Some(Err(back)) ==> back == settings_message(old(self).settings),
            final(self).ping_channel.sent_messages() == (if r matches Some(Ok(())) {
                old(self).ping_channel.sent_messages().push(settings_message(old(self).settings))
            } else {
                old(self).ping_channel.sent_messages()
            }),
            final(self).settings == unmarked(old(self).settings),
            final(self).ping_data == old(self).ping_data,
            final(self).current_menu == old(self).current_menu,
            final(self).settings_menu == old(self).settings_menu,
    {
        match self.pending_settings_message() {
            Some(m) => Some(self.ping_channel.send(m)),
            None => None,
        }
    }
}

} // verus!
