use vstd::prelude::*;

use crate::hot_reload::HotReloadMsg;

verus! {

/// The JSON value carried as the parameters of a script message; opaque here.
#[verifier::external_type_specification]
#[verifier::external_body]
pub struct ExJsonValue(serde_json::Value);

/// Relies on the derived `Clone` of `serde_json::Value`: a copy of the same value.
pub assume_specification[ <serde_json::Value as Clone>::clone ](v: &serde_json::Value) -> (r:
    serde_json::Value)
    ensures
        r == *v,
;

/// An event that any thread hands to the driver through the event-loop proxy.
#[derive(Clone, Debug)]
pub enum UserWindowEvent {
    /// A registered global shortcut fired; carries the shortcut's identifier.
    GlobalHotKeyEvent(u32),
    /// Poll the runtime of the given window.
    Poll(u64),
    /// A message posted by the script engine of the given window.
    Ipc { id: u64, msg: IpcMessage },
    /// A live-reload message.
    HotReloadEvent(HotReloadMsg),
    /// Activate the windows that wait in the pending queue.
    NewWindow,
    /// Close the given window.
    CloseWindow(u64),
}

/// A message from the script engine of a window to the native side.
#[derive(Clone, Debug)]
pub struct IpcMessage {
    method: String,
    params: serde_json::Value,
}

/// The known message methods, and a pass-through for any other name.
#[derive(Clone, Debug)]
pub enum IpcMethod<'a> {
    FileDialog,
    UserEvent,
    Query,
    BrowserOpen,
    Initialize,
    Other(&'a str),
}

/// Whether `name` is one of the method names that have a handler.
pub open spec fn is_known_method(name: Seq<char>) -> bool {
    name == "file_dialog"@ || name == "user_event"@ || name == "query"@ || name
        == "browser_open"@ || name == "initialize"@
}

/// The method that a message whose method name is `name` asks for.
pub open spec fn method_of<'a>(name: Seq<char>, raw: &'a str) -> IpcMethod<'a> {
    if name == "file_dialog"@ {
        IpcMethod::FileDialog
    } else if name == "user_event"@ {
        IpcMethod::UserEvent
    } else if name == "query"@ {
        IpcMethod::Query
    } else if name == "browser_open"@ {
        IpcMethod::BrowserOpen
    } else if name == "initialize"@ {
        IpcMethod::Initialize
    } else {
        IpcMethod::Other(raw)
    }
}

fn same_text(s: &String, name: &str) -> (r: bool)
    ensures
        r == (s@ == name@),
{
    let owned: String = name.to_owned();
    *s == owned
}

impl IpcMessage {
    pub fn new(method: String, params: serde_json::Value) -> (r: IpcMessage)
        ensures
            r.method_name() == method@,
            r.params_value() == params,
    {
        IpcMessage { method, params }
    }

    /// The method name, as characters.
    pub closed spec fn method_name(&self) -> Seq<char> {
        self.method@
    }

    /// The parameters, as they were received.
    pub closed spec fn params_value(&self) -> serde_json::Value {
        self.params
    }

    /// The method this message asks for; unknown names are passed through.
    pub fn method(&self) -> (r: IpcMethod)
        ensures
            is_known_method(self.method_name()) ==> r == method_of(self.method_name(), ""),
            !is_known_method(self.method_name()) ==> r is Other && r->Other_0@
                == self.method_name(),
    {
        if same_text(&self.method, "file_dialog") {
            IpcMethod::FileDialog
        } else if same_text(&self.method, "user_event") {
            IpcMethod::UserEvent
        } else if same_text(&self.method, "query") {
            IpcMethod::Query
        } else if same_text(&self.method, "browser_open") {
            IpcMethod::BrowserOpen
        } else if same_text(&self.method, "initialize") {
            IpcMethod::Initialize
        } else {
            IpcMethod::Other(self.method.as_str())
        }
    }

    /// The method name as text.
    pub fn method_str(&self) -> (r: &str)
        ensures
            r@ == self.method_name(),
    {
        self.method.as_str()
    }

    /// Gives up the message for its parameters.
    pub fn params(self) -> (r: serde_json::Value)
        ensures
            r == self.params_value(),
    {
        self.params
    }
}

} // verus!
