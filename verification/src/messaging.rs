//! The messages that the browser extension and the daemon exchange, and
//! their JSON shapes.
//!
//! Every message is a JSON object whose `type` member names the variant in
//! snake case; the variant's fields are further members of the same object.

use vstd::prelude::*;
use crate::json::Json;
use crate::json::JsonValue;
use crate::json::json_of_text;
use crate::json::json_string_literal;
use crate::json::member_of;
use crate::json::quote_json;
use crate::text::decimal;
use crate::text::decimal_digits;
use crate::text::str_eq;

verus! {

/// A message from the browser extension to the daemon.
#[derive(Debug, PartialEq, Eq)]
pub enum ExtensionMessage {
    /// The extension has started for `service`.
    Ready { service: String },
    /// The page reports `count` unread items.
    BadgeUpdate { count: u32 },
    /// The page raised a notification.
    Notification { title: String, body: String, icon: Option<String> },
    /// The user closed the window; the browser keeps running.
    WindowHidden,
    /// The window was restored or focused.
    WindowShown,
}

/// The mathematical value of an [`ExtensionMessage`].
pub enum ExtensionMessageView {
    Ready { service: Seq<char> },
    BadgeUpdate { count: u32 },
    Notification { title: Seq<char>, body: Seq<char>, icon: Option<Seq<char>> },
    WindowHidden,
    WindowShown,
}

impl View for ExtensionMessage {
    type V = ExtensionMessageView;

    open spec fn view(&self) -> ExtensionMessageView {
        match self {
            ExtensionMessage::Ready { service } => ExtensionMessageView::Ready { service: service@ },
            ExtensionMessage::BadgeUpdate { count } => ExtensionMessageView::BadgeUpdate {
                count: *count,
            },
            ExtensionMessage::Notification { title, body, icon } => {
                ExtensionMessageView::Notification {
                    title: title@,
                    body: body@,
                    icon: match icon {
                        Some(i) => Some(i@),
                        None => None,
                    },
                }
            },
            ExtensionMessage::WindowHidden => ExtensionMessageView::WindowHidden,
            ExtensionMessage::WindowShown => ExtensionMessageView::WindowShown,
        }
    }
}

/// A command from the daemon to the browser extension.
#[derive(Debug, Clone, Copy, PartialEq, Eq, Structural)]
pub enum DaemonMessage {
    DndChanged { enabled: bool },
    HideWindow,
    ShowWindow,
    Ping,
    TitlebarConfig { show: bool },
}

/// The text of a JSON boolean.
pub open spec fn bool_text(b: bool) -> Seq<char> {
    if b {
        "true"@
    } else {
        "false"@
    }
}

/// The string member `key` of `value`, if it has one and it is a string.
pub open spec fn string_member(value: JsonValue, key: Seq<char>) -> Option<Seq<char>> {
    match value.member(key) {
        Some(JsonValue::Str(text)) => Some(text),
        _ => None,
    }
}

/// The message that a JSON value stands for, if it has the shape of one.
///
/// Members that the variant does not name are passed over. A `count` must be
/// a non-negative integer that fits in 32 bits. An `icon` may be absent or
/// `null`, which both mean no icon.
pub open spec fn inbound_of_json(value: JsonValue) -> Option<ExtensionMessageView> {
    match string_member(value, "type"@) {
        None => None,
        Some(tag) => if tag == "ready"@ {
            match string_member(value, "service"@) {
                Some(service) => Some(ExtensionMessageView::Ready { service }),
                None => None,
            }
        } else if tag == "badge_update"@ {
            match value.member("count"@) {
                Some(JsonValue::UInt(count)) => if count <= u32::MAX {
                    Some(ExtensionMessageView::BadgeUpdate { count: count as u32 })
                } else {
                    None
                },
                _ => None,
            }
        } else if tag == "notification"@ {
            match (string_member(value, "title"@), string_member(value, "body"@)) {
                (Some(title), Some(body)) => match value.member("icon"@) {
                    None => Some(ExtensionMessageView::Notification { title, body, icon: None }),
                    Some(JsonValue::Null) => Some(
                        ExtensionMessageView::Notification { title, body, icon: None },
                    ),
                    Some(JsonValue::Str(icon)) => Some(
                        ExtensionMessageView::Notification { title, body, icon: Some(icon) },
                    ),
                    Some(_) => None,
                },
                _ => None,
            }
        } else if tag == "window_hidden"@ {
            Some(ExtensionMessageView::WindowHidden)
        } else if tag == "window_shown"@ {
            Some(ExtensionMessageView::WindowShown)
        } else {
            None
        },
    }
}

/// The JSON value that stands for a message of the extension.
pub open spec fn json_of_inbound(message: ExtensionMessageView) -> JsonValue {
    match message {
        ExtensionMessageView::Ready { service } => JsonValue::Object(
            seq![("type"@, JsonValue::Str("ready"@)), ("service"@, JsonValue::Str(service))],
        ),
        ExtensionMessageView::BadgeUpdate { count } => JsonValue::Object(
            seq![
                ("type"@, JsonValue::Str("badge_update"@)),
                ("count"@, JsonValue::UInt(count as u64)),
            ],
        ),
        ExtensionMessageView::Notification { title, body, icon } => JsonValue::Object(
            seq![
                ("type"@, JsonValue::Str("notification"@)),
                ("title"@, JsonValue::Str(title)),
                ("body"@, JsonValue::Str(body)),
                (
                    "icon"@,
                    match icon {
                        Some(i) => JsonValue::Str(i),
                        None => JsonValue::Null,
                    },
                ),
            ],
        ),
        ExtensionMessageView::WindowHidden => JsonValue::Object(
            seq![("type"@, JsonValue::Str("window_hidden"@))],
        ),
        ExtensionMessageView::WindowShown => JsonValue::Object(
            seq![("type"@, JsonValue::Str("window_shown"@))],
        ),
    }
}

/// The JSON text of a message of the extension: the `type` member first, then
/// the fields in the order of their declaration, without white space.
pub open spec fn inbound_text(message: ExtensionMessageView) -> Seq<char> {
    match message {
        ExtensionMessageView::Ready { service } => "{\"type\":\"ready\",\"service\":"@
            + json_string_literal(service) + "}"@,
        ExtensionMessageView::BadgeUpdate { count } => "{\"type\":\"badge_update\",\"count\":"@
            + decimal_digits(count as nat) + "}"@,
        ExtensionMessageView::Notification { title, body, icon } =>
            "{\"type\":\"notification\",\"title\":"@ + json_string_literal(title) + ",\"body\":"@
            + json_string_literal(body) + ",\"icon\":"@ + (match icon {
            Some(i) => json_string_literal(i),
            None => "null"@,
        }) + "}"@,
        ExtensionMessageView::WindowHidden => "{\"type\":\"window_hidden\"}"@,
        ExtensionMessageView::WindowShown => "{\"type\":\"window_shown\"}"@,
    }
}

/// The command that a JSON value stands for, if it has the shape of one.
pub open spec fn outbound_of_json(value: JsonValue) -> Option<DaemonMessage> {
    match string_member(value, "type"@) {
        None => None,
        Some(tag) => if tag == "dnd_changed"@ {
            match value.member("enabled"@) {
                Some(JsonValue::Bool(enabled)) => Some(DaemonMessage::DndChanged { enabled }),
                _ => None,
            }
        } else if tag == "hide_window"@ {
            Some(DaemonMessage::HideWindow)
        } else if tag == "show_window"@ {
            Some(DaemonMessage::ShowWindow)
        } else if tag == "ping"@ {
            Some(DaemonMessage::Ping)
        } else if tag == "titlebar_config"@ {
            match value.member("show"@) {
                Some(JsonValue::Bool(show)) => Some(DaemonMessage::TitlebarConfig { show }),
                _ => None,
            }
        } else {
            None
        },
    }
}

/// The JSON value that stands for a command of the daemon.
pub open spec fn json_of_outbound(message: DaemonMessage) -> JsonValue {
    match message {
        DaemonMessage::DndChanged { enabled } => JsonValue::Object(
            seq![
                ("type"@, JsonValue::Str("dnd_changed"@)),
                ("enabled"@, JsonValue::Bool(enabled)),
            ],
        ),
        DaemonMessage::HideWindow => JsonValue::Object(
            seq![("type"@, JsonValue::Str("hide_window"@))],
        ),
        DaemonMessage::ShowWindow => JsonValue::Object(
            seq![("type"@, JsonValue::Str("show_window"@))],
        ),
        DaemonMessage::Ping => JsonValue::Object(seq![("type"@, JsonValue::Str("ping"@))]),
        DaemonMessage::TitlebarConfig { show } => JsonValue::Object(
            seq![("type"@, JsonValue::Str("titlebar_config"@)), ("show"@, JsonValue::Bool(show))],
        ),
    }
}

/// The JSON text of a command of the daemon: the `type` member first, then
/// the field, without white space.
pub open spec fn outbound_text(message: DaemonMessage) -> Seq<char> {
    match message {
        DaemonMessage::DndChanged { enabled } => "{\"type\":\"dnd_changed\",\"enabled\":"@
            + bool_text(enabled) + "}"@,
        DaemonMessage::HideWindow => "{\"type\":\"hide_window\"}"@,
        DaemonMessage::ShowWindow => "{\"type\":\"show_window\"}"@,
        DaemonMessage::Ping => "{\"type\":\"ping\"}"@,
        DaemonMessage::TitlebarConfig { show } => "{\"type\":\"titlebar_config\",\"show\":"@
            + bool_text(show) + "}"@,
    }
}

/// The message that JSON text stands for, if it is JSON and has the shape
/// of a message of the extension.
pub open spec fn inbound_of_text(text: Seq<u8>) -> Option<ExtensionMessageView> {
    match json_of_text(text) {
        Some(value) => inbound_of_json(value),
        None => None,
    }
}

/// The command that JSON text stands for, if it is JSON and has the shape of
/// a command of the daemon.
pub open spec fn outbound_of_text(text: Seq<u8>) -> Option<DaemonMessage> {
    match json_of_text(text) {
        Some(value) => outbound_of_json(value),
        None => None,
    }
}

fn bool_str(b: bool) -> (text: &'static str)
    ensures
        text@ == bool_text(b),
{
    if b {
        "true"
    } else {
        "false"
    }
}

/// The string member `key` of `value`, if it has one and it is a string.
fn get_string<'a>(value: &'a Json, key: &str) -> (text: Option<&'a str>)
    ensures
        match text {
            Some(t) => string_member(value@, key@) == Some(t@),
            None => string_member(value@, key@) is None,
        },
{
    match value.get(key) {
        Some(member) => member.as_str(),
        None => None,
    }
}

impl ExtensionMessage {
    /// Reads a message out of JSON text; `None` where the text is not JSON
    /// or does not have the shape of any message.
    pub fn parse(text: &[u8]) -> (message: Option<ExtensionMessage>)
        ensures
            match message {
                Some(m) => inbound_of_text(text@) == Some(m@),
                None => inbound_of_text(text@) is None,
            },
    {
        match Json::parse(text) {
            Some(value) => ExtensionMessage::from_json(&value),
            None => None,
        }
    }

    /// Reads a message out of a JSON value; `None` where the value does not
    /// have the shape of any message.
    pub fn from_json(value: &Json) -> (message: Option<ExtensionMessage>)
        ensures
            match message {
                Some(m) => inbound_of_json(value@) == Some(m@),
                None => inbound_of_json(value@) is None,
            },
    {
        let tag = match get_string(value, "type") {
            Some(tag) => tag,
            None => return None,
        };
        if str_eq(tag, "ready") {
            match get_string(value, "service") {
                Some(service) => Some(ExtensionMessage::Ready { service: String::from_str(service) }),
                None => None,
            }
        } else if str_eq(tag, "badge_update") {
            match value.get("count") {
                Some(Json::UInt(count)) => if *count <= u32::MAX as u64 {
                    Some(ExtensionMessage::BadgeUpdate { count: *count as u32 })
                } else {
                    None
                },
                _ => None,
            }
        } else if str_eq(tag, "notification") {
            let title = match get_string(value, "title") {
                Some(title) => title,
                None => return None,
            };
            let body = match get_string(value, "body") {
                Some(body) => body,
                None => return None,
            };
            let icon = match value.get("icon") {
                None => None,
                Some(Json::Null) => None,
                Some(Json::Str(icon)) => Some(icon.clone()),
                Some(_) => return None,
            };
            Some(
                ExtensionMessage::Notification {
                    title: String::from_str(title),
                    body: String::from_str(body),
                    icon,
                },
            )
        } else if str_eq(tag, "window_hidden") {
            Some(ExtensionMessage::WindowHidden)
        } else if str_eq(tag, "window_shown") {
            Some(ExtensionMessage::WindowShown)
        } else {
            None
        }
    }

    /// The JSON value that stands for this message.
    pub fn to_json(&self) -> (value: Json)
        ensures
            value@ == json_of_inbound(self@),
    {
        let value = match self {
            ExtensionMessage::Ready { service } => Json::object1(
                "type",
                Json::string("ready"),
            ).with_member("service", Json::string(service.as_str())),
            ExtensionMessage::BadgeUpdate { count } => Json::object1(
                "type",
                Json::string("badge_update"),
            ).with_member("count", Json::UInt(*count as u64)),
            ExtensionMessage::Notification { title, body, icon } => {
                let icon_value = match icon {
                    Some(i) => Json::string(i.as_str()),
                    None => Json::Null,
                };
                Json::object1("type", Json::string("notification")).with_member(
                    "title",
                    Json::string(title.as_str()),
                ).with_member("body", Json::string(body.as_str())).with_member("icon", icon_value)
            },
            ExtensionMessage::WindowHidden => Json::object1("type", Json::string("window_hidden")),
            ExtensionMessage::WindowShown => Json::object1("type", Json::string("window_shown")),
        };
        assert(value@->Object_0 =~= json_of_inbound(self@)->Object_0);
        value
    }

    /// The JSON text of this message.
    pub fn to_json_string(&self) -> (text: String)
        ensures
            text@ == inbound_text(self@),
    {
        match self {
            ExtensionMessage::Ready { service } => {
                let mut text = String::from_str("{\"type\":\"ready\",\"service\":");
                let quoted = quote_json(service.as_str());
                text.append(quoted.as_str());
                text.append("}");
                text
            },
            ExtensionMessage::BadgeUpdate { count } => {
                let mut text = String::from_str("{\"type\":\"badge_update\",\"count\":");
                let digits = decimal(*count as u64);
                text.append(digits.as_str());
                text.append("}");
                text
            },
            ExtensionMessage::Notification { title, body, icon } => {
                let mut text = String::from_str("{\"type\":\"notification\",\"title\":");
                let quoted_title = quote_json(title.as_str());
                text.append(quoted_title.as_str());
                text.append(",\"body\":");
                let quoted_body = quote_json(body.as_str());
                text.append(quoted_body.as_str());
                text.append(",\"icon\":");
                match icon {
                    Some(i) => {
                        let quoted_icon = quote_json(i.as_str());
                        text.append(quoted_icon.as_str());
                    },
                    None => {
                        text.append("null");
                    },
                }
                text.append("}");
                text
            },
            ExtensionMessage::WindowHidden => String::from_str("{\"type\":\"window_hidden\"}"),
            ExtensionMessage::WindowShown => String::from_str("{\"type\":\"window_shown\"}"),
        }
    }
}

impl DaemonMessage {
    /// Reads a command out of JSON text; `None` where the text is not JSON
    /// or does not have the shape of any command.
    pub fn parse(text: &[u8]) -> (message: Option<DaemonMessage>)
        ensures
            message == outbound_of_text(text@),
    {
        match Json::parse(text) {
            Some(value) => DaemonMessage::from_json(&value),
            None => None,
        }
    }

    /// Reads a command out of a JSON value; `None` where the value does not
    /// have the shape of any command.
    pub fn from_json(value: &Json) -> (message: Option<DaemonMessage>)
        ensures
            message == outbound_of_json(value@),
    {
        let tag = match get_string(value, "type") {
            Some(tag) => tag,
            None => return None,
        };
        if str_eq(tag, "dnd_changed") {
            match value.get("enabled") {
                Some(Json::Bool(enabled)) => Some(DaemonMessage::DndChanged { enabled: *enabled }),
                _ => None,
            }
        } else if str_eq(tag, "hide_window") {
            Some(DaemonMessage::HideWindow)
        } else if str_eq(tag, "show_window") {
            Some(DaemonMessage::ShowWindow)
        } else if str_eq(tag, "ping") {
            Some(DaemonMessage::Ping)
        } else if str_eq(tag, "titlebar_config") {
            match value.get("show") {
                Some(Json::Bool(show)) => Some(DaemonMessage::TitlebarConfig { show: *show }),
                _ => None,
            }
        } else {
            None
        }
    }

    /// The JSON value that stands for this command.
    pub fn to_json(&self) -> (value: Json)
        ensures
            value@ == json_of_outbound(*self),
    {
        let value = match self {
            DaemonMessage::DndChanged { enabled } => Json::object1(
                "type",
                Json::string("dnd_changed"),
            ).with_member("enabled", Json::Bool(*enabled)),
            DaemonMessage::HideWindow => Json::object1("type", Json::string("hide_window")),
            DaemonMessage::ShowWindow => Json::object1("type", Json::string("show_window")),
            DaemonMessage::Ping => Json::object1("type", Json::string("ping")),
            DaemonMessage::TitlebarConfig { show } => Json::object1(
                "type",
                Json::string("titlebar_config"),
            ).with_member("show", Json::Bool(*show)),
        };
        assert(value@->Object_0 =~= json_of_outbound(*self)->Object_0);
        value
    }

    /// The JSON text of this command.
    pub fn to_json_string(&self) -> (text: String)
        ensures
            text@ == outbound_text(*self),
    {
        match self {
            DaemonMessage::DndChanged { enabled } => {
                let mut text = String::from_str("{\"type\":\"dnd_changed\",\"enabled\":");
                text.append(bool_str(*enabled));
                text.append("}");
                text
            },
            DaemonMessage::HideWindow => String::from_str("{\"type\":\"hide_window\"}"),
            DaemonMessage::ShowWindow => String::from_str("{\"type\":\"show_window\"}"),
            DaemonMessage::Ping => String::from_str("{\"type\":\"ping\"}"),
            DaemonMessage::TitlebarConfig { show } => {
                let mut text = String::from_str("{\"type\":\"titlebar_config\",\"show\":");
                text.append(bool_str(*show));
                text.append("}");
                text
            },
        }
    }
}

/// The member names of the extension's messages differ from one another, and
/// so do the names of its variants.
proof fn lemma_inbound_names_differ()
    ensures
        "type"@ != "service"@,
        "type"@ != "count"@,
        "type"@ != "title"@,
        "type"@ != "body"@,
        "type"@ != "icon"@,
        "title"@ != "body"@,
        "title"@ != "icon"@,
        "body"@ != "icon"@,
        "ready"@ != "badge_update"@,
        "ready"@ != "notification"@,
        "ready"@ != "window_hidden"@,
        "ready"@ != "window_shown"@,
        "badge_update"@ != "notification"@,
        "badge_update"@ != "window_hidden"@,
        "badge_update"@ != "window_shown"@,
        "notification"@ != "window_hidden"@,
        "notification"@ != "window_shown"@,
        "window_hidden"@ != "window_shown"@,
{
    reveal_strlit("type");
    reveal_strlit("service");
    reveal_strlit("count");
    reveal_strlit("title");
    reveal_strlit("body");
    reveal_strlit("icon");
    reveal_strlit("ready");
    reveal_strlit("badge_update");
    reveal_strlit("notification");
    reveal_strlit("window_hidden");
    reveal_strlit("window_shown");
    assert("type"@.len() != "service"@.len());
    assert("type"@.len() != "count"@.len());
    assert("service"@.len() != "count"@.len());
    assert("type"@.len() != "title"@.len());
    assert("service"@.len() != "title"@.len());
    assert("count"@[0] != "title"@[0]);
    assert("type"@[0] != "body"@[0]);
    assert("service"@.len() != "body"@.len());
    assert("count"@.len() != "body"@.len());
    assert("title"@.len() != "body"@.len());
    assert("type"@[0] != "icon"@[0]);
    assert("service"@.len() != "icon"@.len());
    assert("count"@.len() != "icon"@.len());
    assert("title"@.len() != "icon"@.len());
    assert("body"@[0] != "icon"@[0]);
    assert("ready"@.len() != "badge_update"@.len());
    assert("ready"@.len() != "notification"@.len());
    assert("badge_update"@[0] != "notification"@[0]);
    assert("ready"@.len() != "window_hidden"@.len());
    assert("badge_update"@.len() != "window_hidden"@.len());
    assert("notification"@.len() != "window_hidden"@.len());
    assert("ready"@.len() != "window_shown"@.len());
    assert("badge_update"@[0] != "window_shown"@[0]);
    assert("notification"@[0] != "window_shown"@[0]);
    assert("window_hidden"@.len() != "window_shown"@.len());
}

/// The member names of the daemon's commands differ from one another, and so
/// do the names of its variants.
proof fn lemma_outbound_names_differ()
    ensures
        "type"@ != "enabled"@,
        "type"@ != "show"@,
        "dnd_changed"@ != "hide_window"@,
        "dnd_changed"@ != "show_window"@,
        "dnd_changed"@ != "ping"@,
        "dnd_changed"@ != "titlebar_config"@,
        "hide_window"@ != "show_window"@,
        "hide_window"@ != "ping"@,
        "hide_window"@ != "titlebar_config"@,
        "show_window"@ != "ping"@,
        "show_window"@ != "titlebar_config"@,
        "ping"@ != "titlebar_config"@,
{
    reveal_strlit("type");
    reveal_strlit("enabled");
    reveal_strlit("show");
    reveal_strlit("dnd_changed");
    reveal_strlit("hide_window");
    reveal_strlit("show_window");
    reveal_strlit("ping");
    reveal_strlit("titlebar_config");
    assert("type"@.len() != "enabled"@.len());
    assert("type"@[0] != "show"@[0]);
    assert("enabled"@.len() != "show"@.len());
    assert("dnd_changed"@[0] != "hide_window"@[0]);
    assert("dnd_changed"@[0] != "show_window"@[0]);
    assert("hide_window"@[0] != "show_window"@[0]);
    assert("dnd_changed"@.len() != "ping"@.len());
    assert("hide_window"@.len() != "ping"@.len());
    assert("show_window"@.len() != "ping"@.len());
    assert("dnd_changed"@.len() != "titlebar_config"@.len());
    assert("hide_window"@.len() != "titlebar_config"@.len());
    assert("show_window"@.len() != "titlebar_config"@.len());
    assert("ping"@.len() != "titlebar_config"@.len());
}

/// Reading back the JSON value of a message of the extension gives that
/// message again, for every variant and every content of its fields.
pub proof fn lemma_inbound_round_trip(message: ExtensionMessageView)
    ensures
        inbound_of_json(json_of_inbound(message)) == Some(message),
{
    reveal_with_fuel(member_of, 5);
    lemma_inbound_names_differ();
    let value = json_of_inbound(message);
    let members = value->Object_0;
    let rest1 = members.drop_first();
    assert(member_of(members, "type"@) == Some(members[0].1));
    match message {
        ExtensionMessageView::Ready { service } => {
            assert(rest1[0] == ("service"@, JsonValue::Str(service)));
        },
        ExtensionMessageView::BadgeUpdate { count } => {
            assert(rest1[0] == ("count"@, JsonValue::UInt(count as u64)));
        },
        ExtensionMessageView::Notification { title, body, icon } => {
            let rest2 = rest1.drop_first();
            let rest3 = rest2.drop_first();
            assert(rest1[0] == ("title"@, JsonValue::Str(title)));
            assert(rest2[0] == ("body"@, JsonValue::Str(body)));
            assert(rest3[0].0 == "icon"@);
            assert(member_of(members, "title"@) == Some(JsonValue::Str(title)));
            assert(member_of(members, "body"@) == Some(JsonValue::Str(body)));
            assert(member_of(members, "icon"@) == Some(rest3[0].1));
        },
        ExtensionMessageView::WindowHidden => {},
        ExtensionMessageView::WindowShown => {},
    }
}

/// Reading back the JSON value of a command of the daemon gives that command
/// again, for every variant and every content of its field.
pub proof fn lemma_outbound_round_trip(message: DaemonMessage)
    ensures
        outbound_of_json(json_of_outbound(message)) == Some(message),
{
    reveal_with_fuel(member_of, 3);
    lemma_outbound_names_differ();
    let value = json_of_outbound(message);
    let members = value->Object_0;
    let rest1 = members.drop_first();
    assert(member_of(members, "type"@) == Some(members[0].1));
    match message {
        DaemonMessage::DndChanged { enabled } => {
            assert(rest1[0] == ("enabled"@, JsonValue::Bool(enabled)));
        },
        DaemonMessage::TitlebarConfig { show } => {
            assert(rest1[0] == ("show"@, JsonValue::Bool(show)));
        },
        _ => {},
    }
}

} // verus!
