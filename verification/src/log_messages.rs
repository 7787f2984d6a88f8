use vstd::prelude::*;
use vstd::string::*;
use crate::color::Rgb;
use crate::logging::{LogEntry, LogLevel};
use crate::numfmt::{byte_hex_seq, byte_to_hex, i32_to_dec, int_dec_seq};

verus! {

/// `#RRGGBB`, upper case.
pub open spec fn color_hex_seq(c: Rgb) -> Seq<char> {
    "#"@ + byte_hex_seq(c.r as nat) + byte_hex_seq(c.g as nat) + byte_hex_seq(c.b as nat)
}

/// `name[#RRGGBB]`: how a universe is written in log messages.
pub open spec fn universe_label_seq(name: Seq<char>, color: Rgb) -> Seq<char> {
    name + "["@ + color_hex_seq(color) + "]"@
}

pub open spec fn info_msg(msg: Seq<char>) -> Seq<char> {
    "> "@ + msg
}

pub open spec fn created_msg(name: Seq<char>, color: Rgb) -> Seq<char> {
    "> Created universe "@ + universe_label_seq(name, color)
}

pub open spec fn attack_msg(
    source_name: Seq<char>,
    source_color: Rgb,
    target_name: Seq<char>,
    target_color: Rgb,
    damage: int,
) -> Seq<char> {
    "⚔ "@ + universe_label_seq(source_name, source_color) + " dealt "@ + int_dec_seq(damage)
        + " damage to "@ + universe_label_seq(target_name, target_color)
}

pub open spec fn heal_msg(
    source_name: Seq<char>,
    source_color: Rgb,
    target_name: Seq<char>,
    target_color: Rgb,
    amount: int,
) -> Seq<char> {
    "✚ "@ + universe_label_seq(source_name, source_color) + " healed "@ + universe_label_seq(
        target_name,
        target_color,
    ) + " by "@ + int_dec_seq(amount)
}

pub open spec fn collapsed_msg(name: Seq<char>, color: Rgb) -> Seq<char> {
    "☠ "@ + universe_label_seq(name, color) + " has COLLAPSED"@
}

pub open spec fn relationship_msg(
    target_name: Seq<char>,
    target_color: Rgb,
    own_name: Seq<char>,
    own_color: Rgb,
    relationship_label: Seq<char>,
    flavor_text: Seq<char>,
) -> Seq<char> {
    "☯ "@ + universe_label_seq(target_name, target_color) + " and "@ + universe_label_seq(
        own_name,
        own_color,
    ) + " are now "@ + relationship_label + ". "@ + flavor_text
}

pub open spec fn user_action_msg(actor: Seq<char>, action: Seq<char>, target: Seq<char>) -> Seq<
    char,
> {
    "> "@ + actor + " "@ + action + " "@ + target
}

/// Builders for the structured entries the simulation publishes. Each one
/// pins the exact text and level of its entry; publishing is the caller's
/// (or the front end's) affair.
pub struct Log;

impl Log {
    pub fn color_hex(rgb: Rgb) -> (s: String)
        ensures
            s@ == color_hex_seq(rgb),
    {
        let mut s = "#".to_owned();
        s.append(byte_to_hex(rgb.r).as_str());
        s.append(byte_to_hex(rgb.g).as_str());
        s.append(byte_to_hex(rgb.b).as_str());
        s
    }

    pub fn universe_label(name: &str, color: Rgb) -> (s: String)
        ensures
            s@ == universe_label_seq(name@, color),
    {
        let mut s = name.to_owned();
        s.append("[");
        s.append(Self::color_hex(color).as_str());
        s.append("]");
        s
    }

    pub fn info(msg: &str) -> (e: LogEntry)
        ensures
            e.level == LogLevel::Info,
            e.message@ == info_msg(msg@),
    {
        let mut m = "> ".to_owned();
        m.append(msg);
        LogEntry::new(LogLevel::Info, m)
    }

    pub fn created(name: &str, color: Rgb) -> (e: LogEntry)
        ensures
            e.level == LogLevel::Info,
            e.message@ == created_msg(name@, color),
    {
        let mut m = "> Created universe ".to_owned();
        m.append(Self::universe_label(name, color).as_str());
        LogEntry::new(LogLevel::Info, m)
    }

    pub fn attack(
        source_name: &str,
        source_color: Rgb,
        target_name: &str,
        target_color: Rgb,
        damage: i32,
    ) -> (e: LogEntry)
        ensures
            e.level == LogLevel::Universe,
            e.message@ == attack_msg(
                source_name@,
                source_color,
                target_name@,
                target_color,
                damage as int,
            ),
    {
        let mut m = "⚔ ".to_owned();
        m.append(Self::universe_label(source_name, source_color).as_str());
        m.append(" dealt ");
        m.append(i32_to_dec(damage).as_str());
        m.append(" damage to ");
        m.append(Self::universe_label(target_name, target_color).as_str());
        LogEntry::new(LogLevel::Universe, m)
    }

    pub fn heal(
        source_name: &str,
        source_color: Rgb,
        target_name: &str,
        target_color: Rgb,
        amount: i32,
    ) -> (e: LogEntry)
        ensures
            e.level == LogLevel::Universe,
            e.message@ == heal_msg(
                source_name@,
                source_color,
                target_name@,
                target_color,
                amount as int,
            ),
    {
        let mut m = "✚ ".to_owned();
        m.append(Self::universe_label(source_name, source_color).as_str());
        m.append(" healed ");
        m.append(Self::universe_label(target_name, target_color).as_str());
        m.append(" by ");
        m.append(i32_to_dec(amount).as_str());
        LogEntry::new(LogLevel::Universe, m)
    }

    pub fn collapsed(name: &str, color: Rgb) -> (e: LogEntry)
        ensures
            e.level == LogLevel::Universe,
            e.message@ == collapsed_msg(name@, color),
    {
        let mut m = "☠ ".to_owned();
        m.append(Self::universe_label(name, color).as_str());
        m.append(" has COLLAPSED");
        LogEntry::new(LogLevel::Universe, m)
    }

    pub fn relationship_announcement(
        target_name: &str,
        target_color: Rgb,
        own_name: &str,
        own_color: Rgb,
        relationship_label: &str,
        flavor_text: &str,
    ) -> (e: LogEntry)
        ensures
            e.level == LogLevel::Relationship,
            e.message@ == relationship_msg(
                target_name@,
                target_color,
                own_name@,
                own_color,
                relationship_label@,
                flavor_text@,
            ),
    {
        let mut m = "☯ ".to_owned();
        m.append(Self::universe_label(target_name, target_color).as_str());
        m.append(" and ");
        m.append(Self::universe_label(own_name, own_color).as_str());
        m.append(" are now ");
        m.append(relationship_label);
        m.append(". ");
        m.append(flavor_text);
        LogEntry::new(LogLevel::Relationship, m)
    }

    pub fn user_action(actor: &str, action: &str, target: &str) -> (e: LogEntry)
        ensures
            e.level == LogLevel::UserAction,
            e.message@ == user_action_msg(actor@, action@, target@),
    {
        let mut m = "> ".to_owned();
        m.append(actor);
        m.append(" ");
        m.append(action);
        m.append(" ");
        m.append(target);
        LogEntry::new(LogLevel::UserAction, m)
    }
}

} // verus!
