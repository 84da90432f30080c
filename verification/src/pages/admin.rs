//! The administrators' page: the fleet's alerts.

use crate::models::project::DownProjectInfo;
use crate::text::{decimal, i64_to_decimal};
use vstd::prelude::*;

verus! {

/// A downtime of `seconds` seconds in its largest whole unit: seconds below a minute,
/// minutes below an hour, hours below a day, days from there on, each rounded down.
pub open spec fn spec_format_downtime(seconds: int) -> Seq<char> {
    if seconds < 60 {
        decimal(seconds) + "s"@
    } else if seconds < 3600 {
        decimal(seconds / 60) + "m"@
    } else if seconds < 86400 {
        decimal(seconds / 3600) + "h"@
    } else {
        decimal(seconds / 86400) + "d"@
    }
}

/// Writes a downtime in its largest whole unit.
pub fn format_downtime(seconds: i64) -> (r: String)
    ensures
        r@ == spec_format_downtime(seconds as int),
{
    if seconds < 60 {
        let mut r = i64_to_decimal(seconds);
        r.append("s");
        r
    } else if seconds < 3600 {
        let mut r = i64_to_decimal(seconds / 60);
        r.append("m");
        r
    } else if seconds < 86400 {
        let mut r = i64_to_decimal(seconds / 3600);
        r.append("h");
        r
    } else {
        let mut r = i64_to_decimal(seconds / 86400);
        r.append("d");
        r
    }
}

/// The label of the alert for a project that has been down for `seconds` seconds.
pub open spec fn spec_down_label(seconds: int) -> Seq<char> {
    "Down for "@ + spec_format_downtime(seconds)
}

/// Writes the label of the alert for a project that is down.
pub fn down_label(info: &DownProjectInfo) -> (r: String)
    ensures
        r@ == spec_down_label(info.downtime_seconds as int),
{
    let mut r = String::from_str("Down for ");
    let downtime = format_downtime(info.downtime_seconds);
    r.append(downtime.as_str());
    r
}

/// What the alerts section shows.
#[derive(Debug, PartialEq)]
pub enum Alerts {
    /// The list has not come in yet.
    Loading,
    /// No project is down.
    AllUp,
    /// One label for each project that is down, in the order of the list.
    Down(Vec<String>),
}

/// Decides what the alerts section shows for `down_projects`.
pub fn admin(down_projects: &Option<Vec<DownProjectInfo>>) -> (alerts: Alerts)
    ensures
        match *down_projects {
            None => alerts is Loading,
            Some(list) => if list@.len() == 0 {
                alerts is AllUp
            } else {
                &&& alerts is Down
                &&& alerts->Down_0@.len() == list@.len()
                &&& forall|i: int|
                    0 <= i < list@.len() ==> (#[trigger] alerts->Down_0@[i])@ == spec_down_label(
                        list@[i].downtime_seconds as int,
                    )
            },
        },
{
    match down_projects {
        None => Alerts::Loading,
        Some(list) => {
            if list.len() == 0 {
                return Alerts::AllUp;
            }
            let mut labels: Vec<String> = Vec::new();
            let mut i: usize = 0;
            while i < list.len()
                invariant
                    i <= list.len(),
                    labels@.len() == i,
                    forall|k: int|
                        0 <= k < i ==> (#[trigger] labels@[k])@ == spec_down_label(
                            list@[k].downtime_seconds as int,
                        ),
                decreases list.len() - i,
            {
                labels.push(down_label(&list[i]));
                i += 1;
            }
            Alerts::Down(labels)
        },
    }
}

} // verus!
