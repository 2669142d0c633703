//! Order records, creation payloads and the launch-mode rules.

use vstd::prelude::*;
use vstd::string::StringExecFns;
use crate::model::error::ValueError;
use crate::text::bool_rep;
use crate::text::bool_string;
use crate::text::dec_list_rep;
use crate::text::dec_rep;
use crate::text::escape_json;
use crate::text::json_escaped;
use crate::text::u32_list_string;
use crate::text::u32_string;

verus! {

/// When an order begins execution: immediately, on a manual trigger, or
/// after a delay of a given number of minutes.
#[derive(Debug, Clone, Copy, PartialEq, Eq, Structural)]
pub enum LaunchMode {
    Auto,
    Manual,
    Delay,
}

impl LaunchMode {
    /// The name the wire format uses for the mode.
    pub open spec fn spec_str(&self) -> Seq<char> {
        match self {
            LaunchMode::Auto => "auto"@,
            LaunchMode::Manual => "manual"@,
            LaunchMode::Delay => "delay"@,
        }
    }

    /// The mode's name on the wire.
    pub fn as_str(&self) -> (r: &'static str)
        ensures
            r@ == self.spec_str(),
    {
        match self {
            LaunchMode::Auto => "auto",
            LaunchMode::Manual => "manual",
            LaunchMode::Delay => "delay",
        }
    }
}

/// The launch settings of an existing order as the vendor reports them.
#[derive(Debug, Clone)]
pub struct Parameters {
    pub launch_mode: String,
    pub work_mode: String,
    pub delay: bool,
    pub delay_time: u32,
    pub even_distribution: bool,
    pub even_distribution_time: u32,
}

/// Average audience figures. The vendor sends fractional numbers; the
/// library carries their decimal text unchanged.
#[derive(Debug, Clone)]
pub struct AvgValues {
    pub in_settings: String,
    pub in_fact: String,
}

/// Averages over an order's lifetime.
#[derive(Debug, Clone)]
pub struct Average {
    pub online: AvgValues,
    pub session_in_seconds: String,
}

/// Aggregate statistics of one order.
#[derive(Debug, Clone)]
pub struct Statistics {
    pub active_time_in_seconds: u32,
    pub views: u32,
    pub clicks: u32,
    pub ctr: String,
    pub average: Average,
}

/// One order as the vendor reports it.
#[derive(Debug, Clone)]
pub struct Order {
    pub id: u32,
    pub created_at: String,
    pub updated_at: String,
    pub uuid: String,
    pub status: String,
    pub ordered_view_qty: u32,
    pub price_per_view: String,
    pub is_autostart: bool,
    pub online_users_limit: u32,
    pub platform: String,
    pub content_type: String,
    pub parameters: Parameters,
    pub statistics: Option<Statistics>,
    pub content_classification_labels: Option<Vec<String>>,
}

/// One point of the users-online history.
#[derive(Debug, Clone)]
pub struct OnlineStats {
    pub created_at: String,
    pub in_settings: String,
    pub in_fact: String,
}

/// A per-date quantity.
#[derive(Debug, Clone)]
pub struct DateAndQuantity {
    pub date: String,
    pub quantity: i32,
}

/// A per-order quantity.
#[derive(Debug, Clone)]
pub struct IdAndQuantity {
    pub id: u32,
    pub quantity: i32,
}

/// Clicks and views broken down by referring site.
#[derive(Debug, Clone)]
pub struct SiteStats {
    pub domain: String,
    pub views: i32,
    pub clicks: u32,
    pub ctr: String,
}

/// One payment attached to an order.
#[derive(Debug, Clone)]
pub struct Payment {
    pub id: u32,
    pub created_at: String,
    pub updated_at: String,
    pub payed_at: String,
    pub amount: u32,
    pub external_id: String,
    pub uuid: String,
    pub receipt: String,
}

/// Whether viewers are added gradually, and over how many minutes.
#[derive(Debug, Clone)]
pub struct SmoothGain {
    pub enabled: bool,
    pub minutes: u32,
}

impl SmoothGain {
    /// The serialized form.
    pub open spec fn spec_json(&self) -> Seq<char> {
        "{\"enabled\":"@ + bool_rep(self.enabled) + ",\"minutes\":"@ + dec_rep(self.minutes as nat)
            + "}"@
    }

    /// Serialize for transmission.
    pub fn to_json(&self) -> (r: String)
        ensures
            r@ == self.spec_json(),
    {
        let mut out = String::from_str("{\"enabled\":");
        out.append(bool_string(self.enabled));
        out.append(",\"minutes\":");
        out.append(u32_string(self.minutes).as_str());
        out.append("}");
        out
    }
}

/// The creation payload for a Twitch stream order.
#[derive(Debug, Clone)]
pub struct TwitchPayload {
    pub price_id: u32,
    pub number_of_views: u32,
    pub number_of_viewers: u32,
    pub launch_mode: String,
    pub smooth_gain: SmoothGain,
    pub delay_time: u32,
    pub twitch_id: u32,
}

impl TwitchPayload {
    /// The serialized form: the fields in order, the launch mode written as
    /// a JSON string.
    pub open spec fn spec_json(&self) -> Seq<char> {
        "{\"price_id\":"@ + dec_rep(self.price_id as nat) + ",\"number_of_views\":"@ + dec_rep(
            self.number_of_views as nat,
        ) + ",\"number_of_viewers\":"@ + dec_rep(self.number_of_viewers as nat)
            + ",\"launch_mode\":\""@ + json_escaped(self.launch_mode@) + "\",\"smooth_gain\":"@
            + self.smooth_gain.spec_json() + ",\"delay_time\":"@ + dec_rep(self.delay_time as nat)
            + ",\"twitch_id\":"@ + dec_rep(self.twitch_id as nat) + "}"@
    }

    /// Serialize for transmission.
    pub fn to_json(&self) -> (r: String)
        ensures
            r@ == self.spec_json(),
    {
        let mut out = String::from_str("{\"price_id\":");
        out.append(u32_string(self.price_id).as_str());
        out.append(",\"number_of_views\":");
        out.append(u32_string(self.number_of_views).as_str());
        out.append(",\"number_of_viewers\":");
        out.append(u32_string(self.number_of_viewers).as_str());
        out.append(",\"launch_mode\":\"");
        out.append(escape_json(self.launch_mode.as_str()).as_str());
        out.append("\",\"smooth_gain\":");
        out.append(self.smooth_gain.to_json().as_str());
        out.append(",\"delay_time\":");
        out.append(u32_string(self.delay_time).as_str());
        out.append(",\"twitch_id\":");
        out.append(u32_string(self.twitch_id).as_str());
        out.append("}");
        out
    }
}

/// The creation payload for a YouTube stream order.
#[derive(Debug, Clone)]
pub struct YouTubePayload {
    pub price_id: u32,
    pub number_of_views: u32,
    pub number_of_viewers: u32,
    pub launch_mode: String,
    pub smooth_gain: SmoothGain,
    pub delay_time: u32,
    pub channel_url: String,
}

impl YouTubePayload {
    /// The serialized form: the fields in order, the launch mode and the
    /// channel URL written as JSON strings.
    pub open spec fn spec_json(&self) -> Seq<char> {
        "{\"price_id\":"@ + dec_rep(self.price_id as nat) + ",\"number_of_views\":"@ + dec_rep(
            self.number_of_views as nat,
        ) + ",\"number_of_viewers\":"@ + dec_rep(self.number_of_viewers as nat)
            + ",\"launch_mode\":\""@ + json_escaped(self.launch_mode@) + "\",\"smooth_gain\":"@
            + self.smooth_gain.spec_json() + ",\"delay_time\":"@ + dec_rep(self.delay_time as nat)
            + ",\"channel_url\":\""@ + json_escaped(self.channel_url@) + "\"}"@
    }

    /// Serialize for transmission.
    pub fn to_json(&self) -> (r: String)
        ensures
            r@ == self.spec_json(),
    {
        let mut out = String::from_str("{\"price_id\":");
        out.append(u32_string(self.price_id).as_str());
        out.append(",\"number_of_views\":");
        out.append(u32_string(self.number_of_views).as_str());
        out.append(",\"number_of_viewers\":");
        out.append(u32_string(self.number_of_viewers).as_str());
        out.append(",\"launch_mode\":\"");
        out.append(escape_json(self.launch_mode.as_str()).as_str());
        out.append("\",\"smooth_gain\":");
        out.append(self.smooth_gain.to_json().as_str());
        out.append(",\"delay_time\":");
        out.append(u32_string(self.delay_time).as_str());
        out.append(",\"channel_url\":\"");
        out.append(escape_json(self.channel_url.as_str()).as_str());
        out.append("\"}");
        out
    }
}

/// The creation payload for a Kick stream order.
#[derive(Debug, Clone)]
pub struct KickPayload {
    pub price_id: u32,
    pub number_of_views: u32,
    pub number_of_viewers: u32,
    pub launch_mode: String,
    pub smooth_gain: SmoothGain,
    pub delay_time: u32,
    pub channel_url: String,
}

impl KickPayload {
    /// The serialized form: the fields in order, the launch mode and the
    /// channel URL written as JSON strings.
    pub open spec fn spec_json(&self) -> Seq<char> {
        "{\"price_id\":"@ + dec_rep(self.price_id as nat) + ",\"number_of_views\":"@ + dec_rep(
            self.number_of_views as nat,
        ) + ",\"number_of_viewers\":"@ + dec_rep(self.number_of_viewers as nat)
            + ",\"launch_mode\":\""@ + json_escaped(self.launch_mode@) + "\",\"smooth_gain\":"@
            + self.smooth_gain.spec_json() + ",\"delay_time\":"@ + dec_rep(self.delay_time as nat)
            + ",\"channel_url\":\""@ + json_escaped(self.channel_url@) + "\"}"@
    }

    /// Serialize for transmission.
    pub fn to_json(&self) -> (r: String)
        ensures
            r@ == self.spec_json(),
    {
        let mut out = String::from_str("{\"price_id\":");
        out.append(u32_string(self.price_id).as_str());
        out.append(",\"number_of_views\":");
        out.append(u32_string(self.number_of_views).as_str());
        out.append(",\"number_of_viewers\":");
        out.append(u32_string(self.number_of_viewers).as_str());
        out.append(",\"launch_mode\":\"");
        out.append(escape_json(self.launch_mode.as_str()).as_str());
        out.append("\",\"smooth_gain\":");
        out.append(self.smooth_gain.to_json().as_str());
        out.append(",\"delay_time\":");
        out.append(u32_string(self.delay_time).as_str());
        out.append(",\"channel_url\":\"");
        out.append(escape_json(self.channel_url.as_str()).as_str());
        out.append("\"}");
        out
    }
}

/// The order ids of a batch statistics request.
#[derive(Debug, Clone)]
pub struct Identifiers {
    pub identifiers: Vec<u32>,
}

impl Identifiers {
    /// The serialized form: the ids as a JSON list.
    pub open spec fn spec_json(&self) -> Seq<char> {
        "{\"identifiers\":["@ + dec_list_rep(self.identifiers@) + "]}"@
    }

    /// Serialize for transmission.
    pub fn to_json(&self) -> (r: String)
        ensures
            r@ == self.spec_json(),
    {
        let mut out = String::from_str("{\"identifiers\":[");
        out.append(u32_list_string(&self.identifiers).as_str());
        out.append("]}");
        out
    }
}

/// A request to change an order's launch mode.
#[derive(Debug, Clone)]
pub struct LaunchParams {
    pub mode: LaunchMode,
    pub delay_time: u8,
}

impl LaunchParams {
    /// Whether the parameters pass the one local validation rule: a delayed
    /// launch needs its delay, in minutes, within [5, 240]; the other modes
    /// accept anything (and transmit a delay of zero).
    pub open spec fn spec_is_valid(&self) -> bool {
        self.mode is Delay ==> 5 <= self.delay_time <= 240
    }

    /// The delay value that is transmitted: the given minutes for a delayed
    /// launch, zero for the other modes whatever was supplied.
    pub open spec fn spec_sent_delay(&self) -> nat {
        if self.mode is Delay {
            self.delay_time as nat
        } else {
            0
        }
    }

    /// The serialized form of valid parameters.
    pub open spec fn spec_json(&self) -> Seq<char> {
        "{\"delay_time\":"@ + dec_rep(self.spec_sent_delay()) + ",\"mode\":\""@
            + self.mode.spec_str() + "\"}"@
    }

    /// Serialize for transmission. A delayed launch outside [5, 240] minutes
    /// is rejected before any network call; Auto and Manual force the
    /// transmitted delay to zero regardless of the input.
    pub fn to_json(&self) -> (r: Result<String, ValueError>)
        ensures
            r is Ok <==> self.spec_is_valid(),
            r is Ok ==> r->Ok_0@ == self.spec_json(),
            r is Err ==> r->Err_0.message@
                == "The number of minutes for delayed start should be from 5 to 240"@,
    {
        let sent: u32 = match self.mode {
            LaunchMode::Delay => {
                if self.delay_time < 5 || self.delay_time > 240 {
                    return Err(ValueError {
                        message: String::from_str(
                            "The number of minutes for delayed start should be from 5 to 240",
                        ),
                    });
                }
                self.delay_time as u32
            },
            _ => 0,
        };
        let mut out = String::from_str("{\"delay_time\":");
        out.append(u32_string(sent).as_str());
        out.append(",\"mode\":\"");
        out.append(self.mode.as_str());
        out.append("\"}");
        Ok(out)
    }
}

} // verus!
