//! The message that tells a subscriber of a deployed build.

use vstd::prelude::*;
use vstd::string::StringExecFns;

use crate::clock::{format_los_angeles, format_utc, los_angeles_time, utc_rfc3339_millis};
use crate::manifest::{BuildSpec, FeBuild};
use crate::text::{decimal, u32_to_string};

verus! {

/// The name under which messages are posted.
pub const USERNAME: &'static str = "watchdog";

/// The content type of a posted message.
pub const CONTENT_TYPE: &'static str = "application/json";

/// The user agent of the requests that post messages.
pub const USER_AGENT: &'static str = "watchdog/0.0";

/// How the Pacific time of a detection is written: weekday, month, day,
/// hour and minute.
pub const PACIFIC_TIME_FORMAT: &'static str = "%a %b %-d, %-H:%M";

/// The message about a build, as mathematics.
pub struct MessageSpec {
    pub username: Seq<char>,
    pub title: Seq<char>,
    pub color: u32,
    pub description: Seq<char>,
    pub footer_text: Seq<char>,
    pub timestamp: Seq<char>,
}

/// The message about a build: one embed, posted under a user name.
#[derive(Debug, Clone, PartialEq, Eq)]
pub struct WebhookMessage {
    /// The name under which the message is posted.
    pub username: String,
    /// The title of the embed: the branch and the number of the build.
    pub title: String,
    /// The color of the embed: that of the branch.
    pub color: u32,
    /// The description of the embed: the hash of the build.
    pub description: String,
    /// The text of the embed's footer: the Pacific time of the detection.
    pub footer_text: String,
    /// The timestamp of the embed: the time of the detection in UTC.
    pub timestamp: String,
}

impl View for WebhookMessage {
    type V = MessageSpec;

    open spec fn view(&self) -> MessageSpec {
        MessageSpec {
            username: self.username@,
            title: self.title@,
            color: self.color,
            description: self.description@,
            footer_text: self.footer_text@,
            timestamp: self.timestamp@,
        }
    }
}

/// The color of a branch in notifications.
pub open spec fn branch_color(build: BuildSpec) -> u32 {
    match build.manifest.branch {
        crate::branch::Branch::Stable => 0x7289da_u32,
        crate::branch::Branch::Ptb => 0x99aab5_u32,
        crate::branch::Branch::Canary => 0xf1c40f_u32,
        crate::branch::Branch::Development => 0x4d4d4d_u32,
    }
}

/// The message about a build detected at an instant that is written
/// `utc_timestamp` in UTC and `pacific_time` in Pacific time.
pub open spec fn message_of(build: BuildSpec, utc_timestamp: Seq<char>, pacific_time: Seq<char>)
    -> MessageSpec {
    MessageSpec {
        username: USERNAME@,
        title: build.manifest.branch.display() + " "@ + decimal(build.number as nat),
        color: branch_color(build),
        description: "Hash: `"@ + build.manifest.hash + "`"@,
        footer_text: "Pacific Time: "@ + pacific_time,
        timestamp: utc_timestamp,
    }
}

/// The message about a build detected `unix_millis` milliseconds after the
/// start of 1970 in UTC. There is none for an instant that cannot be
/// written.
pub open spec fn message_at(build: BuildSpec, unix_millis: int) -> Option<MessageSpec> {
    match (
        utc_rfc3339_millis(unix_millis),
        los_angeles_time(unix_millis, PACIFIC_TIME_FORMAT@),
    ) {
        (Some(utc_timestamp), Some(pacific_time)) => Some(
            message_of(build, utc_timestamp, pacific_time),
        ),
        _ => None,
    }
}

/// Composes the message about a build from the two writings of the instant
/// of its detection.
pub fn compose_message(build: &FeBuild, utc_timestamp: String, pacific_time: &str) -> (r:
    WebhookMessage)
    ensures
        r@ == message_of(build@, utc_timestamp@, pacific_time@),
{
    let mut title = build.manifest.branch.to_string();
    title.append(" ");
    let number = u32_to_string(build.number);
    title.append(number.as_str());
    let mut description = "Hash: `".to_owned();
    description.append(build.manifest.hash.as_str());
    description.append("`");
    let mut footer_text = "Pacific Time: ".to_owned();
    footer_text.append(pacific_time);
    WebhookMessage {
        username: USERNAME.to_owned(),
        title,
        color: build.manifest.branch.color(),
        description,
        footer_text,
        timestamp: utc_timestamp,
    }
}

/// Makes the message that tells of a build detected `unix_millis`
/// milliseconds after the start of 1970 in UTC.
pub fn post_build_to_webhook(build: &FeBuild, unix_millis: i64) -> (r: Option<WebhookMessage>)
    ensures
        match message_at(build@, unix_millis as int) {
            Some(message) => r matches Some(made) && made@ == message,
            None => r is None,
        },
{
    let utc_timestamp = match format_utc(unix_millis) {
        Some(text) => text,
        None => {
            return None;
        },
    };
    let pacific_time = match format_los_angeles(unix_millis, PACIFIC_TIME_FORMAT) {
        Some(text) => text,
        None => {
            return None;
        },
    };
    Some(compose_message(build, utc_timestamp, pacific_time.as_str()))
}

} // verus!
