//! The state the presentation layer keeps per window: selections, search
//! text, the decoded section flags, and the notification queue.

use vstd::prelude::*;
use crate::flags::SectionFlag;
use crate::i18n;

verus! {

/// The kind of a notification.
#[derive(Debug, Clone, Copy, Eq, PartialEq, Structural)]
pub enum ToastType {
    Success,
    Error,
    Warning,
    Info,
}

/// One notification: its text, kind, and display timing in milliseconds.
#[derive(Debug, Clone)]
pub struct Toast {
    pub message: String,
    pub toast_type: ToastType,
    pub created_at: Option<u64>,
    pub duration_ms: u64,
}

/// The state of the auxiliary windows.
pub struct WindowMessage {
    pub show_about_window: bool,
    pub show_settings_window: bool,
    pub show_help_window: bool,
    pub show_virtual_address_to_file_offset_window: bool,
    pub virtual_address_string: String,
    pub virtual_address: usize,
}

/// The export view's selection and search text.
pub struct ExportMessage {
    pub selected_export_index: Option<usize>,
    pub search_string: String,
}

/// The import view's selections and search text.
pub struct ImportMessage {
    pub selected_function_index: Option<usize>,
    pub selected_dll_index: Option<usize>,
    pub search_string: String,
}

/// The section view's selection and decoded flags.
pub struct SectionMessage {
    pub selected_section_index: Option<usize>,
    pub section_flag: Option<SectionFlag>,
}

/// The per-window state and the notification queue, together.
pub struct SubWindowManager {
    pub export_message: ExportMessage,
    pub import_message: ImportMessage,
    pub section_message: SectionMessage,
    pub window_message: WindowMessage,
    pub toasts: Vec<Toast>,
}

impl ExportMessage {
    /// Drops the selection and the search text.
    pub fn clear(&mut self)
        ensures
            final(self).selected_export_index is None,
            final(self).search_string@.len() == 0,
    {
        self.selected_export_index = None;
        self.search_string = String::new();
    }
}

impl ImportMessage {
    /// Drops the selections and the search text.
    pub fn clear(&mut self)
        ensures
            final(self).selected_function_index is None,
            final(self).selected_dll_index is None,
            final(self).search_string@.len() == 0,
    {
        self.selected_function_index = None;
        self.selected_dll_index = None;
        self.search_string = String::new();
    }
}

impl SectionMessage {
    /// Drops the selection and the decoded flags.
    pub fn clear(&mut self)
        ensures
            final(self).selected_section_index is None,
            final(self).section_flag is None,
    {
        self.selected_section_index = None;
        self.section_flag = None;
    }

    /// The decoded flag, once a section's flags are loaded.
    pub fn get_image_scn_cnt_code(&self) -> (r: bool)
        requires
            self.section_flag is Some,
        ensures
            r == self.section_flag->0.image_scn_cnt_code,
    {
        match &self.section_flag {
            Some(fl) => fl.image_scn_cnt_code,
            None => false,
        }
    }

    /// The decoded flag, once a section's flags are loaded.
    pub fn get_image_scn_cnt_initialized_data(&self) -> (r: bool)
        requires
            self.section_flag is Some,
        ensures
            r == self.section_flag->0.image_scn_cnt_initialized_data,
    {
        match &self.section_flag {
            Some(fl) => fl.image_scn_cnt_initialized_data,
            None => false,
        }
    }

    /// The decoded flag, once a section's flags are loaded.
    pub fn get_image_scn_cnt_uninitialized_data(&self) -> (r: bool)
        requires
            self.section_flag is Some,
        ensures
            r == self.section_flag->0.image_scn_cnt_uninitialized_data,
    {
        match &self.section_flag {
            Some(fl) => fl.image_scn_cnt_uninitialized_data,
            None => false,
        }
    }

    /// The decoded flag, once a section's flags are loaded.
    pub fn get_image_scn_lnk_other(&self) -> (r: bool)
        requires
            self.section_flag is Some,
        ensures
            r == self.section_flag->0.image_scn_lnk_other,
    {
        match &self.section_flag {
            Some(fl) => fl.image_scn_lnk_other,
            None => false,
        }
    }

    /// The decoded flag, once a section's flags are loaded.
    pub fn get_image_scn_lnk_info(&self) -> (r: bool)
        requires
            self.section_flag is Some,
        ensures
            r == self.section_flag->0.image_scn_lnk_info,
    {
        match &self.section_flag {
            Some(fl) => fl.image_scn_lnk_info,
            None => false,
        }
    }

    /// The decoded flag, once a section's flags are loaded.
    pub fn get_image_scn_lnk_remove(&self) -> (r: bool)
        requires
            self.section_flag is Some,
        ensures
            r == self.section_flag->0.image_scn_lnk_remove,
    {
        match &self.section_flag {
            Some(fl) => fl.image_scn_lnk_remove,
            None => false,
        }
    }

    /// The decoded flag, once a section's flags are loaded.
    pub fn get_image_scn_lnk_comdat(&self) -> (r: bool)
        requires
            self.section_flag is Some,
        ensures
            r == self.section_flag->0.image_scn_lnk_comdat,
    {
        match &self.section_flag {
            Some(fl) => fl.image_scn_lnk_comdat,
            None => false,
        }
    }

    /// The decoded flag, once a section's flags are loaded.
    pub fn get_image_scn_no_defer_spec_exc(&self) -> (r: bool)
        requires
            self.section_flag is Some,
        ensures
            r == self.section_flag->0.image_scn_no_defer_spec_exc,
    {
        match &self.section_flag {
            Some(fl) => fl.image_scn_no_defer_spec_exc,
            None => false,
        }
    }

    /// The decoded flag, once a section's flags are loaded.
    pub fn get_image_scn_gprel(&self) -> (r: bool)
        requires
            self.section_flag is Some,
        ensures
            r == self.section_flag->0.image_scn_gprel,
    {
        match &self.section_flag {
            Some(fl) => fl.image_scn_gprel,
            None => false,
        }
    }

    /// The decoded flag, once a section's flags are loaded.
    pub fn get_image_scn_align1_bytes(&self) -> (r: bool)
        requires
            self.section_flag is Some,
        ensures
            r == self.section_flag->0.image_scn_align1_bytes,
    {
        match &self.section_flag {
            Some(fl) => fl.image_scn_align1_bytes,
            None => false,
        }
    }

    /// The decoded flag, once a section's flags are loaded.
    pub fn get_image_scn_align2_bytes(&self) -> (r: bool)
        requires
            self.section_flag is Some,
        ensures
            r == self.section_flag->0.image_scn_align2_bytes,
    {
        match &self.section_flag {
            Some(fl) => fl.image_scn_align2_bytes,
            None => false,
        }
    }

    /// The decoded flag, once a section's flags are loaded.
    pub fn get_image_scn_align4_bytes(&self) -> (r: bool)
        requires
            self.section_flag is Some,
        ensures
            r == self.section_flag->0.image_scn_align4_bytes,
    {
        match &self.section_flag {
            Some(fl) => fl.image_scn_align4_bytes,
            None => false,
        }
    }

    /// The decoded flag, once a section's flags are loaded.
    pub fn get_image_scn_align8_bytes(&self) -> (r: bool)
        requires
            self.section_flag is Some,
        ensures
            r == self.section_flag->0.image_scn_align8_bytes,
    {
        match &self.section_flag {
            Some(fl) => fl.image_scn_align8_bytes,
            None => false,
        }
    }

    /// The decoded flag, once a section's flags are loaded.
    pub fn get_image_scn_align16_bytes(&self) -> (r: bool)
        requires
            self.section_flag is Some,
        ensures
            r == self.section_flag->0.image_scn_align16_bytes,
    {
        match &self.section_flag {
            Some(fl) => fl.image_scn_align16_bytes,
            None => false,
        }
    }

    /// The decoded flag, once a section's flags are loaded.
    pub fn get_image_scn_align32_bytes(&self) -> (r: bool)
        requires
            self.section_flag is Some,
        ensures
            r == self.section_flag->0.image_scn_align32_bytes,
    {
        match &self.section_flag {
            Some(fl) => fl.image_scn_align32_bytes,
            None => false,
        }
    }

    /// The decoded flag, once a section's flags are loaded.
    pub fn get_image_scn_align64_bytes(&self) -> (r: bool)
        requires
            self.section_flag is Some,
        ensures
            r == self.section_flag->0.image_scn_align64_bytes,
    {
        match &self.section_flag {
            Some(fl) => fl.image_scn_align64_bytes,
            None => false,
        }
    }

    /// The decoded flag, once a section's flags are loaded.
    pub fn get_image_scn_align128_bytes(&self) -> (r: bool)
        requires
            self.section_flag is Some,
        ensures
            r == self.section_flag->0.image_scn_align128_bytes,
    {
        match &self.section_flag {
            Some(fl) => fl.image_scn_align128_bytes,
            None => false,
        }
    }

    /// The decoded flag, once a section's flags are loaded.
    pub fn get_image_scn_align256_bytes(&self) -> (r: bool)
        requires
            self.section_flag is Some,
        ensures
            r == self.section_flag->0.image_scn_align256_bytes,
    {
        match &self.section_flag {
            Some(fl) => fl.image_scn_align256_bytes,
            None => false,
        }
    }

    /// The decoded flag, once a section's flags are loaded.
    pub fn get_image_scn_align512_bytes(&self) -> (r: bool)
        requires
            self.section_flag is Some,
        ensures
            r == self.section_flag->0.image_scn_align512_bytes,
    {
        match &self.section_flag {
            Some(fl) => fl.image_scn_align512_bytes,
            None => false,
        }
    }

    /// The decoded flag, once a section's flags are loaded.
    pub fn get_image_scn_align1024_bytes(&self) -> (r: bool)
        requires
            self.section_flag is Some,
        ensures
            r == self.section_flag->0.image_scn_align1024_bytes,
    {
        match &self.section_flag {
            Some(fl) => fl.image_scn_align1024_bytes,
            None => false,
        }
    }

    /// The decoded flag, once a section's flags are loaded.
    pub fn get_image_scn_align2048_bytes(&self) -> (r: bool)
        requires
            self.section_flag is Some,
        ensures
            r == self.section_flag->0.image_scn_align2048_bytes,
    {
        match &self.section_flag {
            Some(fl) => fl.image_scn_align2048_bytes,
            None => false,
        }
    }

    /// The decoded flag, once a section's flags are loaded.
    pub fn get_image_scn_align4096_bytes(&self) -> (r: bool)
        requires
            self.section_flag is Some,
        ensures
            r == self.section_flag->0.image_scn_align4096_bytes,
    {
        match &self.section_flag {
            Some(fl) => fl.image_scn_align4096_bytes,
            None => false,
        }
    }

    /// The decoded flag, once a section's flags are loaded.
    pub fn get_image_scn_align8192_bytes(&self) -> (r: bool)
        requires
            self.section_flag is Some,
        ensures
            r == self.section_flag->0.image_scn_align8192_bytes,
    {
        match &self.section_flag {
            Some(fl) => fl.image_scn_align8192_bytes,
            None => false,
        }
    }

    /// The decoded flag, once a section's flags are loaded.
    pub fn get_image_scn_lnk_nreloc_ovfl(&self) -> (r: bool)
        requires
            self.section_flag is Some,
        ensures
            r == self.section_flag->0.image_scn_lnk_nreloc_ovfl,
    {
        match &self.section_flag {
            Some(fl) => fl.image_scn_lnk_nreloc_ovfl,
            None => false,
        }
    }

    /// The decoded flag, once a section's flags are loaded.
    pub fn get_image_scn_mem_discardable(&self) -> (r: bool)
        requires
            self.section_flag is Some,
        ensures
            r == self.section_flag->0.image_scn_mem_discardable,
    {
        match &self.section_flag {
            Some(fl) => fl.image_scn_mem_discardable,
            None => false,
        }
    }

    /// The decoded flag, once a section's flags are loaded.
    pub fn get_image_scn_mem_not_paged(&self) -> (r: bool)
        requires
            self.section_flag is Some,
        ensures
            r == self.section_flag->0.image_scn_mem_not_paged,
    {
        match &self.section_flag {
            Some(fl) => fl.image_scn_mem_not_paged,
            None => false,
        }
    }

    /// The decoded flag, once a section's flags are loaded.
    pub fn get_image_scn_mem_shared(&self) -> (r: bool)
        requires
            self.section_flag is Some,
        ensures
            r == self.section_flag->0.image_scn_mem_shared,
    {
        match &self.section_flag {
            Some(fl) => fl.image_scn_mem_shared,
            None => false,
        }
    }

    /// The decoded flag, once a section's flags are loaded.
    pub fn get_image_scn_mem_execute(&self) -> (r: bool)
        requires
            self.section_flag is Some,
        ensures
            r == self.section_flag->0.image_scn_mem_execute,
    {
        match &self.section_flag {
            Some(fl) => fl.image_scn_mem_execute,
            None => false,
        }
    }

    /// The decoded flag, once a section's flags are loaded.
    pub fn get_image_scn_mem_read(&self) -> (r: bool)
        requires
            self.section_flag is Some,
        ensures
            r == self.section_flag->0.image_scn_mem_read,
    {
        match &self.section_flag {
            Some(fl) => fl.image_scn_mem_read,
            None => false,
        }
    }

    /// The decoded flag, once a section's flags are loaded.
    pub fn get_image_scn_mem_write(&self) -> (r: bool)
        requires
            self.section_flag is Some,
        ensures
            r == self.section_flag->0.image_scn_mem_write,
    {
        match &self.section_flag {
            Some(fl) => fl.image_scn_mem_write,
            None => false,
        }
    }

}

impl SubWindowManager {
    /// A manager with nothing selected and nothing queued.
    pub fn new() -> (r: Self)
        ensures
            r.toasts@.len() == 0,
            r.export_message.selected_export_index is None,
            r.import_message.selected_dll_index is None,
            r.section_message.section_flag is None,
    {
        Self {
            export_message: ExportMessage {
                selected_export_index: None,
                search_string: String::new(),
            },
            import_message: ImportMessage {
                selected_function_index: None,
                selected_dll_index: None,
                search_string: String::new(),
            },
            section_message: SectionMessage { selected_section_index: None, section_flag: None },
            window_message: WindowMessage {
                show_about_window: false,
                show_settings_window: false,
                show_help_window: false,
                show_virtual_address_to_file_offset_window: false,
                virtual_address_string: String::new(),
                virtual_address: 0,
            },
            toasts: Vec::new(),
        }
    }

    /// Drops every view's selections, searches and flags.
    pub fn clear_data(&mut self)
        ensures
            final(self).export_message.selected_export_index is None,
            final(self).import_message.selected_function_index is None,
            final(self).import_message.selected_dll_index is None,
            final(self).section_message.selected_section_index is None,
            final(self).section_message.section_flag is None,
    {
        self.export_message.clear();
        self.import_message.clear();
        self.section_message.clear();
    }

    /// Queues one notification; it starts timing when first shown.
    pub fn add_toast(&mut self, message: String, toast_type: ToastType)
        ensures
            final(self).toasts@.len() == old(self).toasts@.len() + 1,
            forall|i: int|
                0 <= i < old(self).toasts@.len() ==> final(self).toasts@[i] == old(
                    self,
                ).toasts@[i],
            final(self).toasts@.last().message@ == message@,
            final(self).toasts@.last().toast_type == toast_type,
            final(self).toasts@.last().created_at is None,
    {
        let toast = Toast { message, toast_type, created_at: None, duration_ms: 1000 };
        self.toasts.push(toast);
    }

    /// Queues a success notification.
    pub fn show_success(&mut self, message: &str)
        ensures
            final(self).toasts@.len() == old(self).toasts@.len() + 1,
            final(self).toasts@.last().message@ == message@,
            final(self).toasts@.last().toast_type == ToastType::Success,
    {
        self.add_toast(message.to_owned(), ToastType::Success);
    }

    /// Queues an error notification.
    pub fn show_error(&mut self, message: &str)
        ensures
            final(self).toasts@.len() == old(self).toasts@.len() + 1,
            final(self).toasts@.last().message@ == message@,
            final(self).toasts@.last().toast_type == ToastType::Error,
    {
        self.add_toast(message.to_owned(), ToastType::Error);
    }

    /// Queues a warning notification.
    pub fn show_warning(&mut self, message: &str)
        ensures
            final(self).toasts@.len() == old(self).toasts@.len() + 1,
            final(self).toasts@.last().message@ == message@,
            final(self).toasts@.last().toast_type == ToastType::Warning,
    {
        self.add_toast(message.to_owned(), ToastType::Warning);
    }

    /// Queues an information notification.
    pub fn show_info(&mut self, message: &str)
        ensures
            final(self).toasts@.len() == old(self).toasts@.len() + 1,
            final(self).toasts@.last().message@ == message@,
            final(self).toasts@.last().toast_type == ToastType::Info,
    {
        self.add_toast(message.to_owned(), ToastType::Info);
    }

    /// Queues one notification of each kind, as a demonstration.
    pub fn demo_toasts(&mut self)
        ensures
            final(self).toasts@.len() == old(self).toasts@.len() + 4,
    {
        self.show_success(i18n::DEMO_OPERATION_SUCCESS);
        self.show_error(i18n::DEMO_ERROR_OCCURRED);
        self.show_warning(i18n::DEMO_WARNING_NOTICE);
        self.show_info(i18n::DEMO_INFO_MESSAGE);
    }
}

} // verus!
