//! Messages that pages send over the IPC channel.

use vstd::prelude::*;
use crate::settings::AppSettings;

verus! {

/// Messages received from JavaScript.
#[derive(Debug)]
pub enum IpcMessage {
    Badge { service_id: String, direct: u32, indirect: u32 },
    Notification {
        service_id: String,
        title: String,
        body: String,
        icon: String,
        tag: String,
        silent: bool,
    },
    DialogTitle { service_id: String, title: String },
    Avatar { service_id: String, url: String },
    OpenUrl { url: String },
    ActivateService { service_id: String },
    AddService { recipe_id: String, name: String, url: Option<String>, team: Option<String> },
    RemoveService { service_id: String },
    ReorderServices { service_ids: Vec<String> },
    OpenPicker {},
    OpenSettings {},
    UpdateSettings { settings: AppSettings },
    SetServiceFlag { service_id: String, flag: String, value: bool },
    RenameService { service_id: String, name: String },
}

impl IpcMessage {
    /// Commands that change the app's services or settings, or open its
    /// privileged pages: only the app's own trusted pages may send them.
    pub open spec fn spec_is_privileged(&self) -> bool {
        match self {
            IpcMessage::AddService { .. } | IpcMessage::RemoveService { .. }
            | IpcMessage::ActivateService { .. } | IpcMessage::ReorderServices { .. }
            | IpcMessage::OpenPicker { .. } | IpcMessage::OpenSettings { .. }
            | IpcMessage::UpdateSettings { .. } | IpcMessage::SetServiceFlag { .. }
            | IpcMessage::RenameService { .. } => true,
            _ => false,
        }
    }

    /// The service a report message speaks for (badge, dialog title, avatar,
    /// notification); `None` for every other message.
    pub open spec fn spec_reported_service(&self) -> Option<Seq<char>> {
        match self {
            IpcMessage::Badge { service_id, .. } => Some(service_id@),
            IpcMessage::DialogTitle { service_id, .. } => Some(service_id@),
            IpcMessage::Avatar { service_id, .. } => Some(service_id@),
            IpcMessage::Notification { service_id, .. } => Some(service_id@),
            _ => None,
        }
    }

    pub fn is_privileged(&self) -> (b: bool)
        ensures
            b == self.spec_is_privileged(),
    {
        match self {
            IpcMessage::AddService { .. } | IpcMessage::RemoveService { .. }
            | IpcMessage::ActivateService { .. } | IpcMessage::ReorderServices { .. }
            | IpcMessage::OpenPicker { .. } | IpcMessage::OpenSettings { .. }
            | IpcMessage::UpdateSettings { .. } | IpcMessage::SetServiceFlag { .. }
            | IpcMessage::RenameService { .. } => true,
            _ => false,
        }
    }

    pub fn reported_service(&self) -> (r: Option<&str>)
        ensures
            match r {
                Some(s) => self.spec_reported_service() == Some(s@),
                None => self.spec_reported_service() is None,
            },
    {
        match self {
            IpcMessage::Badge { service_id, .. } => Some(service_id.as_str()),
            IpcMessage::DialogTitle { service_id, .. } => Some(service_id.as_str()),
            IpcMessage::Avatar { service_id, .. } => Some(service_id.as_str()),
            IpcMessage::Notification { service_id, .. } => Some(service_id.as_str()),
            _ => None,
        }
    }
}

} // verus!
