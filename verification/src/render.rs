//! Render plans: the plain-data descriptions of what the workflow shows —
//! embeds, button rows, select menus, and text forms.  The outside shell
//! turns each plan into the platform's widget types verbatim.

use vstd::prelude::*;

use crate::session::{BanData, BanField};
use crate::strutil::{push_dec, spec_dec_of, str_eq};
use crate::workflow::{
    attachment_custom_id, confirm_custom_id, duration_custom_id, reason_custom_id,
    select_menu_custom_id,
};

verus! {

/// A rendered embed: title, description, colour, inline fields, footer.
pub struct EmbedPlan {
    pub title: String,
    pub description: String,
    pub color: u32,
    pub fields: Vec<(String, String, bool)>,
    pub footer: String,
}

/// Whether the ban menu is live or has reached one of its terminal
/// states: confirmed and finished, cancelled by the owner, or timed out.
#[derive(Clone, Copy, PartialEq, Eq, Structural, Debug)]
pub enum BanMenuStatus {
    Running,
    Ended,
    Cancelled,
    TimedOut,
}

/// The ban menu's summary embed.  While running it shows the three
/// draft details as inline fields; each terminal state drops the fields
/// and renders its own distinct view.
pub fn ban_menu_embed(
    reason: &str,
    duration: &str,
    attachment: &str,
    admin_name: &str,
    status: BanMenuStatus,
) -> (r: EmbedPlan)
    ensures
        r.title@ == match status {
            BanMenuStatus::Running => "Ban Menu - In Progress"@,
            BanMenuStatus::Ended => "Ban Menu - Ended"@,
            BanMenuStatus::Cancelled => "Ban Menu - Cancelled"@,
            BanMenuStatus::TimedOut => "Ban Menu - Timed Out"@,
        },
        r.description@ == match status {
            BanMenuStatus::Running => "Select *user's* to ban from the server."@,
            BanMenuStatus::Ended => "The ban process has ended. please create a new ban menu to ban users."@,
            BanMenuStatus::Cancelled => "The ban menu was cancelled."@,
            BanMenuStatus::TimedOut => "The ban menu timed out; all controls are disabled."@,
        },
        r.color == match status {
            BanMenuStatus::Running => 0xE67E22u32,
            BanMenuStatus::Ended => 0xE74C3Cu32,
            BanMenuStatus::Cancelled => 0x0062FFu32,
            BanMenuStatus::TimedOut => 0xE74C3Cu32,
        },
        match status {
            BanMenuStatus::Running => {
                &&& r.fields@.len() == 3
                &&& r.fields@[0].0@ == "Reason"@ && r.fields@[0].1@ == reason@ && r.fields@[0].2
                &&& r.fields@[1].0@ == "Duration"@ && r.fields@[1].1@ == duration@ + " days"@
                    && r.fields@[1].2
                &&& r.fields@[2].0@ == "Attachment"@ && r.fields@[2].1@ == attachment@
                    && r.fields@[2].2
            },
            _ => r.fields@.len() == 0,
        },
        r.footer@ == "ADMIN: "@ + admin_name@,
{
    let mut footer = "ADMIN: ".to_owned();
    footer.append(admin_name);
    match status {
        BanMenuStatus::Running => {
            let mut duration_text = duration.to_owned();
            duration_text.append(" days");
            let mut fields: Vec<(String, String, bool)> = Vec::new();
            fields.push(("Reason".to_owned(), reason.to_owned(), true));
            fields.push(("Duration".to_owned(), duration_text, true));
            fields.push(("Attachment".to_owned(), attachment.to_owned(), true));
            EmbedPlan {
                title: "Ban Menu - In Progress".to_owned(),
                description: "Select *user's* to ban from the server.".to_owned(),
                color: 0xE67E22,
                fields,
                footer,
            }
        },
        BanMenuStatus::Ended => {
            EmbedPlan {
                title: "Ban Menu - Ended".to_owned(),
                description:
                    "The ban process has ended. please create a new ban menu to ban users.".to_owned(),
                color: 0xE74C3C,
                fields: Vec::new(),
                footer,
            }
        },
        BanMenuStatus::Cancelled => {
            EmbedPlan {
                title: "Ban Menu - Cancelled".to_owned(),
                description: "The ban menu was cancelled.".to_owned(),
                color: 0x0062FF,
                fields: Vec::new(),
                footer,
            }
        },
        BanMenuStatus::TimedOut => {
            EmbedPlan {
                title: "Ban Menu - Timed Out".to_owned(),
                description: "The ban menu timed out; all controls are disabled.".to_owned(),
                color: 0xE74C3C,
                fields: Vec::new(),
                footer,
            }
        },
    }
}

/// A rendered button.
pub struct ButtonPlan {
    pub custom_id: String,
    pub label: String,
    pub style: ButtonStylePlan,
    pub disabled: bool,
}

/// The platform's button styles.
#[derive(Clone, Copy, PartialEq, Eq, Structural, Debug)]
pub enum ButtonStylePlan {
    Primary,
    Secondary,
    Success,
    Danger,
}

/// The numbered style a raw description names; out-of-range numbers fall
/// back to the primary style.
pub fn button_style_from_i32(value: i32) -> (r: ButtonStylePlan)
    ensures
        r == if value == 2 {
            ButtonStylePlan::Secondary
        } else if value == 3 {
            ButtonStylePlan::Success
        } else if value == 4 {
            ButtonStylePlan::Danger
        } else {
            ButtonStylePlan::Primary
        },
{
    if value == 2 {
        ButtonStylePlan::Secondary
    } else if value == 3 {
        ButtonStylePlan::Success
    } else if value == 4 {
        ButtonStylePlan::Danger
    } else {
        ButtonStylePlan::Primary
    }
}

/// The ban menu's action row: confirm, reason, duration, attachment —
/// all enabled or all disabled together (confirm is disabled exactly
/// while no target is selected).
pub fn create_btn_ban_action_row(is_disabled: bool, owner: u64) -> (r: Vec<ButtonPlan>)
    ensures
        r@.len() == 4,
        r@[0].custom_id@ == "confirmbanbtn:"@ + spec_dec_of(owner as nat),
        r@[0].label@ == "CONFIRM BAN"@,
        r@[0].style == ButtonStylePlan::Success,
        r@[1].custom_id@ == "reasonbanbtn:"@ + spec_dec_of(owner as nat),
        r@[1].label@ == "REASON"@,
        r@[1].style == ButtonStylePlan::Secondary,
        r@[2].custom_id@ == "durationbanbtn:"@ + spec_dec_of(owner as nat),
        r@[2].label@ == "DURATION"@,
        r@[2].style == ButtonStylePlan::Secondary,
        r@[3].custom_id@ == "attachmentbanbtn:"@ + spec_dec_of(owner as nat),
        r@[3].label@ == "ATTACHMENT"@,
        r@[3].style == ButtonStylePlan::Primary,
        forall|i: int| 0 <= i < 4 ==> (#[trigger] r@[i]).disabled == is_disabled,
{
    let mut row: Vec<ButtonPlan> = Vec::new();
    row.push(
        ButtonPlan {
            custom_id: confirm_custom_id(owner),
            label: "CONFIRM BAN".to_owned(),
            style: ButtonStylePlan::Success,
            disabled: is_disabled,
        },
    );
    row.push(
        ButtonPlan {
            custom_id: reason_custom_id(owner),
            label: "REASON".to_owned(),
            style: ButtonStylePlan::Secondary,
            disabled: is_disabled,
        },
    );
    row.push(
        ButtonPlan {
            custom_id: duration_custom_id(owner),
            label: "DURATION".to_owned(),
            style: ButtonStylePlan::Secondary,
            disabled: is_disabled,
        },
    );
    row.push(
        ButtonPlan {
            custom_id: attachment_custom_id(owner),
            label: "ATTACHMENT".to_owned(),
            style: ButtonStylePlan::Primary,
            disabled: is_disabled,
        },
    );
    row
}

/// A rendered user-select control.
pub struct SelectMenuPlan {
    pub custom_id: String,
    pub placeholder: String,
    pub min_values: u8,
    pub max_values: u8,
}

/// The ban menu's user-select control: up to ten users, none required.
pub fn create_select_menu(owner: u64) -> (r: SelectMenuPlan)
    ensures
        r.custom_id@ == "banuser:"@ + spec_dec_of(owner as nat),
        r.placeholder@ == "please select users"@,
        r.min_values == 0,
        r.max_values == 10,
{
    SelectMenuPlan {
        custom_id: select_menu_custom_id(owner),
        placeholder: "please select users".to_owned(),
        min_values: 0,
        max_values: 10,
    }
}

/// A rendered short text form with one input.
pub struct ModalPlan {
    pub custom_id: String,
    pub title: String,
    pub input_id: String,
    pub input_label: String,
    pub multiline: bool,
}

/// The detail-editing form each editing control opens.
pub fn build_modal(field: BanField) -> (r: ModalPlan)
    ensures
        match field {
            BanField::Reason => r.custom_id@ == "BAN REASON"@ && r.title@ == "Reason for ban"@
                && r.input_id@ == "ban_reason"@ && r.input_label@ == "BAN REASON"@ && r.multiline,
            BanField::Duration => r.custom_id@ == "BAN DURATION"@ && r.title@
                == "Duration for ban"@ && r.input_id@ == "ban_duration"@ && r.input_label@
                == "BAN DURATION (in days, 0 for permanent)"@ && !r.multiline,
            BanField::Attachment => r.custom_id@ == "BAN ATTACHMENT"@ && r.title@
                == "Attachment for ban"@ && r.input_id@ == "ban_attachment"@ && r.input_label@
                == "BAN ATTACHMENT (URL)"@ && r.multiline,
        },
{
    match field {
        BanField::Reason => ModalPlan {
            custom_id: "BAN REASON".to_owned(),
            title: "Reason for ban".to_owned(),
            input_id: "ban_reason".to_owned(),
            input_label: "BAN REASON".to_owned(),
            multiline: true,
        },
        BanField::Duration => ModalPlan {
            custom_id: "BAN DURATION".to_owned(),
            title: "Duration for ban".to_owned(),
            input_id: "ban_duration".to_owned(),
            input_label: "BAN DURATION (in days, 0 for permanent)".to_owned(),
            multiline: false,
        },
        BanField::Attachment => ModalPlan {
            custom_id: "BAN ATTACHMENT".to_owned(),
            title: "Attachment for ban".to_owned(),
            input_id: "ban_attachment".to_owned(),
            input_label: "BAN ATTACHMENT (URL)".to_owned(),
            multiline: true,
        },
    }
}

/// The draft summary's three display texts — reason, duration,
/// attachment — with their defaults: a missing reason reads "No reason
/// provided", a missing duration "No duration set", a duration of zero
/// "Permanent", and a missing attachment "No attachment".
pub fn ban_info_summary(draft: Option<&BanData>) -> (r: (String, String, String))
    ensures
        r.0@ == match draft {
            Some(d) => match d.info.reason {
                Some(s) => s@,
                None => "No reason provided"@,
            },
            None => "No reason provided"@,
        },
        r.1@ == match draft {
            Some(d) => match d.info.duration_days {
                Some(n) => if n == 0 {
                    "Permanent"@
                } else {
                    spec_dec_of(n as nat)
                },
                None => "No duration set"@,
            },
            None => "No duration set"@,
        },
        r.2@ == match draft {
            Some(d) => match d.info.attachment {
                Some(s) => s@,
                None => "No attachment"@,
            },
            None => "No attachment"@,
        },
{
    match draft {
        Some(d) => {
            let reason = match &d.info.reason {
                Some(s) => s.clone(),
                None => "No reason provided".to_owned(),
            };
            let duration = match d.info.duration_days {
                Some(n) => {
                    if n == 0 {
                        "Permanent".to_owned()
                    } else {
                        let mut t = String::new();
                        push_dec(&mut t, n as u64);
                        proof {
                            assert(t@ =~= spec_dec_of(n as nat));
                        }
                        t
                    }
                },
                None => "No duration set".to_owned(),
            };
            let attachment = match &d.info.attachment {
                Some(s) => s.clone(),
                None => "No attachment".to_owned(),
            };
            (reason, duration, attachment)
        },
        None => (
            "No reason provided".to_owned(),
            "No duration set".to_owned(),
            "No attachment".to_owned(),
        ),
    }
}

/// The attachment types the profile-update command accepts for a new
/// avatar or banner.
pub fn is_allowed_image_type(content_type: &str) -> (r: bool)
    ensures
        r == (content_type@ == "image/gif"@ || content_type@ == "image/jpeg"@ || content_type@
            == "image/png"@),
{
    str_eq(content_type, "image/gif") || str_eq(content_type, "image/jpeg") || str_eq(
        content_type,
        "image/png",
    )
}

} // verus!
