//! The settings form: the texts the user edits, how they are checked, and
//! what applying them changes.
use vstd::prelude::*;

use crate::decimal::{
    decimal,
    format_decimal,
    int_error_message,
    lemma_parse_format_roundtrip,
    parse_usize,
    parse_usize_spec,
    IntError,
};
use crate::ping_data::PingData;
use crate::settings::Settings;
use vstd::string::to_string_from_display_ensures;

verus! {

/// The outcome of reading one fractional field of the form: the value when
/// it reads and is in range, `OutOfRange` when it reads but breaks its rule,
/// or the reader's message when it does not read.
pub enum FieldCheck<F> {
    Accepted(F),
    OutOfRange,
    Unparsable(String),
}

/// The smallest number of plot points the form accepts.
pub const MIN_PLOT_POINTS: usize = 1;

/// The largest number of plot points the form accepts.
pub const MAX_PLOT_POINTS: usize = 100;

/// The plot size that the text `text` asks for, when it reads as a number in
/// range.
pub open spec fn plot_points_in_range(text: Seq<char>) -> Option<usize> {
    match parse_usize_spec(text) {
        Ok(v) => if MIN_PLOT_POINTS <= v <= MAX_PLOT_POINTS {
            Some(v)
        } else {
            None
        },
        Err(_) => None,
    }
}

/// Law: a plot size is accepted exactly when its text reads as a number from
/// 1 to 100, and then it is that number; a number above 100 or below 1 fails
/// the check at the plot size.
pub proof fn lemma_plot_points_range<F>(text: Seq<char>, address: Seq<char>, interval: FieldCheck<F>, timeout: FieldCheck<F>, aspect_ratio: FieldCheck<F>)
    ensures
        forall|v: usize| #[trigger] plot_points_in_range(text) == Some(v) <==> (parse_usize_spec(text) == Ok::<usize, IntError>(v) && 1 <= v && v <= 100),
        (parse_usize_spec(text) matches Ok(v) && (v > 100 || v < 1)) ==> failed_stage(address, interval, timeout, text, aspect_ratio) <= 3,
{
}

/// The fields are checked in this order, and the first that fails stops the
/// check: 0 the address, 1 the interval, 2 the timeout, 3 the plot size, 4 the
/// aspect ratio; 5 means that every field passed.
pub open spec fn failed_stage<F>(
    address: Seq<char>,
    interval: FieldCheck<F>,
    timeout: FieldCheck<F>,
    max_plot_points: Seq<char>,
    aspect_ratio: FieldCheck<F>,
) -> nat {
    if address.len() == 0 {
        0
    } else if !(interval is Accepted) {
        1
    } else if !(timeout is Accepted) {
        2
    } else if plot_points_in_range(max_plot_points) is None {
        3
    } else if !(aspect_ratio is Accepted) {
        4
    } else {
        5
    }
}

/// The message for a fractional field named by `prefix` that failed with
/// `check`, where `rule` says what the field must be.
pub open spec fn float_failure<F>(prefix: Seq<char>, rule: Seq<char>, check: FieldCheck<F>) -> Seq<
    char,
> {
    match check {
        FieldCheck::Unparsable(e) => prefix + e@,
        _ => prefix + rule,
    }
}

/// The message shown when the check stops at `stage`.
pub open spec fn failure_message<F>(
    stage: nat,
    interval: FieldCheck<F>,
    timeout: FieldCheck<F>,
    max_plot_points: Seq<char>,
    aspect_ratio: FieldCheck<F>,
) -> Seq<char> {
    if stage == 0 {
        "Invalid ping address!"@
    } else if stage == 1 {
        float_failure(
            "Invalid ping interval! "@,
            "Must be greater than or equal to 0.1"@,
            interval,
        )
    } else if stage == 2 {
        float_failure("Invalid ping timeout! "@, "Must be greater than 0"@, timeout)
    } else if stage == 3 {
        match parse_usize_spec(max_plot_points) {
            Err(e) => "Invalid max plot points! "@ + int_error_message(e),
            Ok(_) => "Invalid max plot points! "@ + "Must be between 1 and 100"@,
        }
    } else {
        float_failure("Invalid plot aspect ratio! "@, "Must be greater than 0"@, aspect_ratio)
    }
}

/// Law: a form filled from settings whose address is not empty and whose plot
/// size is in range passes the check once its fractional fields read back,
/// and gives back the same plot size.
pub proof fn lemma_form_roundtrip<F>(address: Seq<char>, max_plot_points: usize, interval: F, timeout: F, aspect_ratio: F)
    requires
        address.len() > 0,
        MIN_PLOT_POINTS <= max_plot_points <= MAX_PLOT_POINTS,
    ensures
        plot_points_in_range(decimal(max_plot_points as nat)) == Some(max_plot_points),
        failed_stage(
            address,
            FieldCheck::Accepted(interval),
            FieldCheck::Accepted(timeout),
            decimal(max_plot_points as nat),
            FieldCheck::Accepted(aspect_ratio),
        ) == 5,
{
    lemma_parse_format_roundtrip(max_plot_points);
}

/// The settings form.
pub struct SettingsMenu {
    pub ping_interval: String,
    pub ping_timeout: String,
    pub ping_address: String,
    pub max_plot_points: String,
    pub plot_aspect_ratio: String,
    /// The message of the last failed check; empty when there is none.
    pub error: String,
}

/// The message for a fractional field that failed.
fn float_failure_text<F>(prefix: &'static str, rule: &'static str, check: &FieldCheck<F>) -> (r:
    String)
    ensures
        r@ == float_failure(prefix@, rule@, *check),
{
    let mut m = String::from_str(prefix);
    match check {
        FieldCheck::Unparsable(e) => m.append(e.as_str()),
        _ => m.append(rule),
    }
    m
}

impl SettingsMenu {
    /// An empty form.
    pub fn new() -> (r: Self)
        ensures
            r.ping_interval@.len() == 0,
            r.ping_timeout@.len() == 0,
            r.ping_address@.len() == 0,
            r.max_plot_points@.len() == 0,
            r.plot_aspect_ratio@.len() == 0,
            r.error@.len() == 0,
    {
        SettingsMenu {
            ping_interval: String::new(),
            ping_timeout: String::new(),
            ping_address: String::new(),
            max_plot_points: String::new(),
            plot_aspect_ratio: String::new(),
            error: String::new(),
        }
    }

    /// Fills the form with the texts of `settings` and clears the message.
    pub fn on_enabled<F: std::fmt::Display>(&mut self, settings: &Settings<F>)
        ensures
            to_string_from_display_ensures::<F>(&settings.ping_interval, final(self).ping_interval),
            to_string_from_display_ensures::<F>(&settings.ping_timeout, final(self).ping_timeout),
            final(self).ping_address@ == settings.ping_address@,
            final(self).max_plot_points@ == decimal(settings.max_plot_points as nat),
            to_string_from_display_ensures::<F>(
                &settings.plot_aspect_ratio,
                final(self).plot_aspect_ratio,
            ),
            final(self).error@.len() == 0,
    {
        self.ping_interval = settings.ping_interval.to_string();
        self.ping_timeout = settings.ping_timeout.to_string();
        self.ping_address = settings.ping_address.clone();
        self.max_plot_points = format_decimal(settings.max_plot_points as u128);
        self.plot_aspect_ratio = settings.plot_aspect_ratio.to_string();
        self.error = String::new();
    }

    /// Checks the form field by field and writes each field that passes into
    /// `settings`, stopping at the first that fails: its message goes to
    /// `error` and the result is `false`. The fractional fields come already
    /// read and checked against their rules (interval at least 0.1, timeout
    /// and aspect ratio above 0); the address must not be empty and the plot
    /// size must read as a whole number from 1 to 100.
    pub fn parse_inputs<F>(
        &mut self,
        settings: &mut Settings<F>,
        interval: FieldCheck<F>,
        timeout: FieldCheck<F>,
        aspect_ratio: FieldCheck<F>,
    ) -> (r: bool)
        ensures
            ({
                let stage = failed_stage(
                    old(self).ping_address@,
                    interval,
                    timeout,
                    old(self).max_plot_points@,
                    aspect_ratio,
                );
                &&& r == (stage == 5)
                &&& final(settings).ping_address == (if stage > 0 {
                    old(self).ping_address
                } else {
                    old(settings).ping_address
                })
                &&& final(settings).ping_interval == (if stage > 1 {
                    interval->Accepted_0
                } else {
                    old(settings).ping_interval
                })
                &&& final(settings).ping_timeout == (if stage > 2 {
                    timeout->Accepted_0
                } else {
                    old(settings).ping_timeout
                })
                &&& final(settings).max_plot_points == (if stage > 3 {
                    plot_points_in_range(old(self).max_plot_points@)->Some_0
                } else {
                    old(settings).max_plot_points
                })
                &&& final(settings).plot_aspect_ratio == (if stage > 4 {
                    aspect_ratio->Accepted_0
                } else {
                    old(settings).plot_aspect_ratio
                })
                &&& final(settings).update == old(settings).update
                &&& final(self).error@ == (if stage < 5 {
                    failure_message(
                        stage,
                        interval,
                        timeout,
                        old(self).max_plot_points@,
                        aspect_ratio,
                    )
                } else {
                    old(self).error@
                })
            }),
            final(self).ping_interval == old(self).ping_interval,
            final(self).ping_timeout == old(self).ping_timeout,
            final(self).ping_address == old(self).ping_address,
            final(self).max_plot_points == old(self).max_plot_points,
            final(self).plot_aspect_ratio == old(self).plot_aspect_ratio,
    {
        if self.ping_address.as_str().unicode_len() != 0 {
            settings.ping_address = self.ping_address.clone();
        } else {
            self.error = String::from_str("Invalid ping address!");
            return false;
        }
        match interval {
            FieldCheck::Accepted(v) => {
                settings.ping_interval = v;
            },
            _ => {
                self.error = float_failure_text(
                    "Invalid ping interval! ",
                    "Must be greater than or equal to 0.1",
                    &interval,
                );
                return false;
            },
        }
        match timeout {
            FieldCheck::Accepted(v) => {
                settings.ping_timeout = v;
            },
            _ => {
                self.error = float_failure_text(
                    "Invalid ping timeout! ",
                    "Must be greater than 0",
                    &timeout,
                );
                return false;
            },
        }
        match parse_usize(self.max_plot_points.as_str()) {
            Ok(v) => {
                if MIN_PLOT_POINTS <= v && v <= MAX_PLOT_POINTS {
                    settings.max_plot_points = v;
                } else {
                    let mut m = String::from_str("Invalid max plot points! ");
                    m.append("Must be between 1 and 100");
                    self.error = m;
                    return false;
                }
            },
            Err(e) => {
                let mut m = String::from_str("Invalid max plot points! ");
                m.append(e.message());
                self.error = m;
                return false;
            },
        }
        match aspect_ratio {
            FieldCheck::Accepted(v) => {
                settings.plot_aspect_ratio = v;
            },
            _ => {
                self.error = float_failure_text(
                    "Invalid plot aspect ratio! ",
                    "Must be greater than 0",
                    &aspect_ratio,
                );
                return false;
            },
        }
        true
    }

    /// What the Apply button does: when every field passes, the message is
    /// cleared, the new settings are marked for the pinging thread and the
    /// samples of the old settings are dropped; the result says whether the
    /// settings are to be written to the settings file.
    pub fn apply<F>(
        &mut self,
        settings: &mut Settings<F>,
        ping_data: &mut PingData<F>,
        interval: FieldCheck<F>,
        timeout: FieldCheck<F>,
        aspect_ratio: FieldCheck<F>,
    ) -> (saved: bool)
        ensures
            saved == (failed_stage(
                old(self).ping_address@,
                interval,
                timeout,
                old(self).max_plot_points@,
                aspect_ratio,
            ) == 5),
            saved ==> {
                &&& final(self).error@.len() == 0
                &&& final(settings).update
                &&& final(settings).ping_address == old(self).ping_address
                &&& final(settings).ping_interval == interval->Accepted_0
                &&& final(settings).ping_timeout == timeout->Accepted_0
                &&& final(settings).max_plot_points == plot_points_in_range(
                    old(self).max_plot_points@,
                )->Some_0
                &&& final(settings).plot_aspect_ratio == aspect_ratio->Accepted_0
                &&& final(ping_data).wf()
                &&& final(ping_data)@.len() == 0
                &&& final(ping_data).spec_stats() is None
            },
            !saved ==> {
                &&& final(self).error@ == failure_message(
                    failed_stage(
                        old(self).ping_address@,
                        interval,
                        timeout,
                        old(self).max_plot_points@,
                        aspect_ratio,
                    ),
                    interval,
                    timeout,
                    old(self).max_plot_points@,
                    aspect_ratio,
                )
                &&& final(settings).update == old(settings).update
                &&& *final(ping_data) == *old(ping_data)
            },
            final(self).ping_interval == old(self).ping_interval,
            final(self).ping_timeout == old(self).ping_timeout,
            final(self).ping_address == old(self).ping_address,
            final(self).max_plot_points == old(self).max_plot_points,
            final(self).plot_aspect_ratio == old(self).plot_aspect_ratio,
    {
        if self.parse_inputs(settings, interval, timeout, aspect_ratio) {
            self.error = String::new();
            settings.update = true;
            *ping_data = PingData::new();
            true
        } else {
            false
        }
    }

    /// The line that shows the last message, when there is one.
    pub fn error_label(&self) -> (r: Option<String>)
        ensures
            self.error@.len() == 0 ==> r is None,
            self.error@.len() > 0 ==> (r matches Some(l) && l@ == "Error: "@ + self.error@),
    {
        if self.error.as_str().unicode_len() == 0 {
            None
        } else {
            let mut l = String::from_str("Error: ");
            l.append(self.error.as_str());
            Some(l)
        }
    }
}

} // verus!
