//! Webhook messages about the bot: what they hold, and the queue they wait in.

use vstd::prelude::*;
use vstd::string::*;
use crate::text::{dec, push_dec};
use std::collections::VecDeque;

verus! {

/// Where the target is, seen from the bot.
#[derive(Debug, Copy, Clone, PartialEq, Eq, Structural)]
pub enum Quadrant {
    OnePositivePositive,
    TwoNegativePositive,
    ThreePostiveNegative,
    FourNegativeNegative,
    Close,
    Other,
}

/// The bot's profile: name and uuid (as text).
#[derive(Debug, Clone)]
pub struct WebhookProfile {
    pub name: String,
    pub uuid: String,
}

/// A webhook message: who posts it, with what avatar, the text, whether role mentions
/// are allowed, and its flags.
#[derive(Debug, Clone)]
pub struct WebhookMessage {
    pub username: String,
    pub avatar_url: String,
    pub content: String,
    pub mention_roles: bool,
    pub flags: u32,
}

/// A message as values.
pub struct MessageView {
    pub username: Seq<char>,
    pub avatar_url: Seq<char>,
    pub content: Seq<char>,
    pub mention_roles: bool,
    pub flags: u32,
}

impl View for WebhookMessage {
    type V = MessageView;

    open spec fn view(&self) -> MessageView {
        MessageView {
            username: self.username@,
            avatar_url: self.avatar_url@,
            content: self.content@,
            mention_roles: self.mention_roles,
            flags: self.flags,
        }
    }
}

/// The flag that posts a message without notifications.
pub const SUPPRESS_NOTIFICATIONS: u32 = 4096;

/// What a message starts with: a mention of the alert role when the group is pinged
/// and a role is set.
pub open spec fn ping_prefix(ping_group: bool, alert_role_id: Option<u64>) -> Seq<char> {
    match alert_role_id {
        Some(role) if ping_group => "<@&"@ + dec(role as nat) + ">\n"@,
        _ => Seq::empty(),
    }
}

/// The message for `message` posted as `profile` (name and uuid).
pub open spec fn spec_webhook_message(
    profile: Option<(Seq<char>, Seq<char>)>,
    alert_role_id: Option<u64>,
    message: Seq<char>,
    silent: bool,
    ping_group: bool,
) -> MessageView {
    MessageView {
        username: match profile {
            Some(p) => p.0,
            None => "NoUsername"@,
        },
        avatar_url: match profile {
            Some(p) => "https://mc-heads.net/head/"@ + p.1,
            None => "https://mc-heads.net/head/Steve"@,
        },
        content: ping_prefix(ping_group, alert_role_id) + message,
        mention_roles: ping_group && alert_role_id is Some,
        flags: if silent { SUPPRESS_NOTIFICATIONS } else { 0 },
    }
}

/// What the sender does next.
#[derive(Debug)]
pub enum SenderStep {
    /// Post this message.
    Send(WebhookMessage),
    /// Nothing queued: wait for the next round.
    Wait,
    /// Nothing queued and the queue is closed: stop.
    Stop,
}

/// Messages as values.
pub open spec fn messages_view(q: Seq<WebhookMessage>) -> Seq<MessageView> {
    q.map_values(|m: WebhookMessage| m@)
}

/// Posts messages to a webhook about the bot.
#[derive(Debug)]
pub struct ShulkerCounterModule {
    pub alert_role_id: Option<u64>,
    pub profile: Option<WebhookProfile>,
    pub queue: VecDeque<WebhookMessage>,
    pub queue_open: bool,
}

impl ShulkerCounterModule {
    /// An open, empty queue, with no profile and no alert role yet.
    pub fn new() -> (r: ShulkerCounterModule)
        ensures
            r.alert_role_id is None,
            r.profile is None,
            r.queue@.len() == 0,
            r.queue_open,
    {
        ShulkerCounterModule { alert_role_id: None, profile: None, queue: VecDeque::new(), queue_open: true }
    }

    /// The profile as values.
    pub open spec fn profile_view(&self) -> Option<(Seq<char>, Seq<char>)> {
        match self.profile {
            Some(p) => Some((p.name@, p.uuid@)),
            None => None,
        }
    }

    /// Queues `message` (without notifications when `silent`, mentioning the alert role
    /// when `ping_group`), if the queue is open; returns whether it was queued.
    pub fn queue_webhook(&mut self, message: &str, silent: bool, ping_group: bool) -> (r: bool)
        ensures
            r == old(self).queue_open,
            messages_view(final(self).queue@) == if old(self).queue_open {
                messages_view(old(self).queue@).push(spec_webhook_message(
                    old(self).profile_view(), old(self).alert_role_id, message@, silent, ping_group))
            } else {
                messages_view(old(self).queue@)
            },
            final(self).queue_open == old(self).queue_open,
            final(self).alert_role_id == old(self).alert_role_id,
            final(self).profile_view() == old(self).profile_view(),
    {
        proof {
            reveal_strlit("<@&");
            reveal_strlit(">\n");
        }
        let flags: u32 = if silent { SUPPRESS_NOTIFICATIONS } else { 0 };
        let mut content = String::new();
        let mut mention_roles = false;
        match self.alert_role_id {
            Some(role) => {
                if ping_group {
                    content.append("<@&");
                    push_dec(&mut content, role);
                    content.append(">\n");
                    mention_roles = true;
                }
            },
            None => {},
        }
        content.append(message);
        let (username, avatar_url) = match &self.profile {
            Some(p) => {
                let mut avatar = String::from_str("https://mc-heads.net/head/");
                avatar.append(p.uuid.as_str());
                (String::from_str(p.name.as_str()), avatar)
            },
            None => (String::from_str("NoUsername"), String::from_str("https://mc-heads.net/head/Steve")),
        };
        let m = WebhookMessage { username, avatar_url, content, mention_roles, flags };
        if self.queue_open {
            let ghost v = m@;
            self.queue.push_back(m);
            proof {
                assert(messages_view(self.queue@) =~= messages_view(old(self).queue@).push(v));
            }
            true
        } else {
            false
        }
    }

    /// Queues a message that mentions the alert role.
    pub fn webhook_alert(&mut self, message: &str) -> (r: bool)
        ensures
            r == old(self).queue_open,
            messages_view(final(self).queue@) == if old(self).queue_open {
                messages_view(old(self).queue@).push(spec_webhook_message(
                    old(self).profile_view(), old(self).alert_role_id, message@, false, true))
            } else {
                messages_view(old(self).queue@)
            },
            final(self).queue_open == old(self).queue_open,
    {
        self.queue_webhook(message, false, true)
    }

    /// Queues a message that notifies nobody.
    pub fn webhook_silent(&mut self, message: &str) -> (r: bool)
        ensures
            r == old(self).queue_open,
            messages_view(final(self).queue@) == if old(self).queue_open {
                messages_view(old(self).queue@).push(spec_webhook_message(
                    old(self).profile_view(), old(self).alert_role_id, message@, true, false))
            } else {
                messages_view(old(self).queue@)
            },
            final(self).queue_open == old(self).queue_open,
    {
        self.queue_webhook(message, true, false)
    }

    /// Queues a plain message.
    pub fn webhook(&mut self, message: &str) -> (r: bool)
        ensures
            r == old(self).queue_open,
            messages_view(final(self).queue@) == if old(self).queue_open {
                messages_view(old(self).queue@).push(spec_webhook_message(
                    old(self).profile_view(), old(self).alert_role_id, message@, false, false))
            } else {
                messages_view(old(self).queue@)
            },
            final(self).queue_open == old(self).queue_open,
    {
        self.queue_webhook(message, false, false)
    }

    /// Closes the queue: later messages are discarded, and the sender stops once the
    /// queued ones are posted.
    pub fn close_queue(&mut self)
        ensures
            !final(self).queue_open,
            messages_view(final(self).queue@) == messages_view(old(self).queue@),
    {
        self.queue_open = false;
    }

    /// The sender's next step: the oldest queued message, taken off the queue; else wait
    /// while the queue is open, or stop.
    pub fn next_to_send(&mut self) -> (r: SenderStep)
        ensures
            final(self).queue_open == old(self).queue_open,
            if old(self).queue@.len() > 0 {
                r matches SenderStep::Send(m) && m@ == old(self).queue@[0]@
                    && messages_view(final(self).queue@) == messages_view(old(self).queue@).drop_first()
            } else {
                final(self).queue@.len() == 0 && if old(self).queue_open { r is Wait } else { r is Stop }
            },
    {
        match self.queue.pop_front() {
            Some(m) => {
                proof {
                    assert(messages_view(self.queue@) =~= messages_view(old(self).queue@).drop_first());
                }
                SenderStep::Send(m)
            },
            None => if self.queue_open {
                SenderStep::Wait
            } else {
                SenderStep::Stop
            },
        }
    }
}

/// Role mentions are allowed in a message exactly when it starts with a mention of the
/// alert role, and a silent message is the only one that suppresses notifications.
pub proof fn law_mentions_follow_ping(
    profile: Option<(Seq<char>, Seq<char>)>,
    alert_role_id: Option<u64>,
    message: Seq<char>,
    silent: bool,
    ping_group: bool,
)
    ensures
        spec_webhook_message(profile, alert_role_id, message, silent, ping_group).mention_roles
            <==> ping_prefix(ping_group, alert_role_id).len() > 0,
        (spec_webhook_message(profile, alert_role_id, message, silent, ping_group).flags == SUPPRESS_NOTIFICATIONS)
            <==> silent,
{
    if ping_group && alert_role_id is Some {
        assert(("<@&"@ + dec(alert_role_id->0 as nat) + ">\n"@).len() > 0) by {
            reveal_strlit("<@&");
        }
    }
}

} // verus!
