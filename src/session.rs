//! The session event dispatcher: classifies each event from the chat
//! session, keeps the bot's current nickname, and picks out the room's chat
//! lines for the router.

use vstd::prelude::*;

verus! {

/// The protocol numerics the dispatcher tells apart.
#[derive(Clone, Copy, Debug, PartialEq, Eq, Structural)]
pub enum Numeric {
    /// The welcome that names the bot.
    Welcome,
    /// A bootstrap line: server capabilities or message of the day.
    Bootstrap,
    /// Any other numeric.
    Other,
}

/// An event from the chat session, reduced to what the dispatcher reads.
#[derive(Clone, Debug)]
pub enum ChatEvent {
    /// A keep-alive ping.
    KeepAlive,
    /// Someone joined `room`.
    Joined { room: String },
    /// Someone left `room`.
    Parted { room: String },
    /// Someone left the server.
    Quit,
    /// The bot's nickname changed to `nick`.
    NickChanged { nick: String },
    /// A chat line sent to `target`, from `speaker` where the session named one.
    ChatMessage { target: String, speaker: Option<String>, text: String },
    /// A protocol numeric with its arguments.
    ProtocolNotice { code: Numeric, args: Vec<String> },
    /// Anything else.
    Other,
}

/// What the caller does with an event once the dispatcher has seen it.
#[derive(Clone, Debug)]
pub enum Reaction {
    /// Nothing at all.
    Ignore,
    /// Log it as room activity.
    Announce,
    /// Log it for diagnostics.
    Diagnose,
    /// Log that the bot's nickname is now the one held.
    Renamed,
    /// Log the line and route this text to the command router.
    Respond(String),
    /// The event lacks the speaker it needs: log it and go on.
    Malformed,
}

/// The session identity: the room the bot serves and its current nickname.
pub struct Cantide {
    channel: String,
    nick: String,
}

/// The reaction to `e` in `channel`.
pub open spec fn reaction_of(channel: Seq<char>, e: ChatEvent) -> Reaction {
    match e {
        ChatEvent::KeepAlive => Reaction::Ignore,
        ChatEvent::Joined { room } => if room@ == channel {
            Reaction::Announce
        } else {
            Reaction::Diagnose
        },
        ChatEvent::Parted { room } => if room@ == channel {
            Reaction::Announce
        } else {
            Reaction::Diagnose
        },
        ChatEvent::Quit => Reaction::Announce,
        ChatEvent::NickChanged { .. } => Reaction::Renamed,
        ChatEvent::ChatMessage { target, speaker, text } => if target@ != channel {
            Reaction::Diagnose
        } else if speaker is None {
            Reaction::Malformed
        } else {
            Reaction::Respond(text)
        },
        ChatEvent::ProtocolNotice { code, args } => match code {
            Numeric::Welcome => if args.len() == 1 {
                Reaction::Renamed
            } else {
                Reaction::Ignore
            },
            Numeric::Bootstrap => Reaction::Ignore,
            Numeric::Other => Reaction::Diagnose,
        },
        ChatEvent::Other => Reaction::Diagnose,
    }
}

/// The nickname after `e`, where it was `nick` before.
pub open spec fn nick_after(nick: Seq<char>, e: ChatEvent) -> Seq<char> {
    match e {
        ChatEvent::NickChanged { nick: n } => n@,
        ChatEvent::ProtocolNotice { code, args } => if code == Numeric::Welcome && args.len()
            == 1 {
            args[0]@
        } else {
            nick
        },
        _ => nick,
    }
}

impl Cantide {
    pub closed spec fn channel_view(&self) -> Seq<char> {
        self.channel@
    }

    pub closed spec fn nick_view(&self) -> Seq<char> {
        self.nick@
    }

    /// A session for `channel` under the nickname `nick`.
    pub fn new(channel: String, nick: String) -> (r: Cantide)
        ensures
            r.channel_view() == channel@,
            r.nick_view() == nick@,
    {
        Cantide { channel, nick }
    }

    /// The room the bot serves.
    pub fn channel(&self) -> (r: &String)
        ensures
            r@ == self.channel_view(),
    {
        &self.channel
    }

    /// The bot's current nickname.
    pub fn nick(&self) -> (r: &String)
        ensures
            r@ == self.nick_view(),
    {
        &self.nick
    }

    /// Classifies one event and applies its change of nickname.
    pub fn handle(&mut self, e: ChatEvent) -> (r: Reaction)
        ensures
            r == reaction_of(old(self).channel_view(), e),
            final(self).channel_view() == old(self).channel_view(),
            final(self).nick_view() == nick_after(old(self).nick_view(), e),
    {
        match e {
            ChatEvent::KeepAlive => Reaction::Ignore,
            ChatEvent::Joined { room } => if room == self.channel {
                Reaction::Announce
            } else {
                Reaction::Diagnose
            },
            ChatEvent::Parted { room } => if room == self.channel {
                Reaction::Announce
            } else {
                Reaction::Diagnose
            },
            ChatEvent::Quit => Reaction::Announce,
            ChatEvent::NickChanged { nick } => {
                self.nick = nick;
                Reaction::Renamed
            },
            ChatEvent::ChatMessage { target, speaker, text } => if target != self.channel {
                Reaction::Diagnose
            } else if speaker.is_none() {
                Reaction::Malformed
            } else {
                Reaction::Respond(text)
            },
            ChatEvent::ProtocolNotice { code, args } => match code {
                Numeric::Welcome => if args.len() == 1 {
                    self.nick = args[0].clone();
                    Reaction::Renamed
                } else {
                    Reaction::Ignore
                },
                Numeric::Bootstrap => Reaction::Ignore,
                Numeric::Other => Reaction::Diagnose,
            },
            ChatEvent::Other => Reaction::Diagnose,
        }
    }
}

} // verus!
