//! The settings shared between the graphical and the command-line front
//! ends: LMS access, hosting-backend access, roster generation and logging.

use vstd::prelude::*;
use crate::error::ConfigError;
use crate::strutil::{str_eq, trim_end_char, trimmed_end};

verus! {

/// Common settings shared between the front ends.
#[derive(Debug)]
pub struct CommonSettings {
    /// The Canvas instance used by default.
    pub canvas_base_url: String,
    /// A custom LMS base URL.
    pub canvas_custom_url: String,
    /// Which Canvas URL is used: `TUE` or `Custom`.
    pub canvas_url_option: String,
    /// The LMS access token.
    pub canvas_access_token: String,
    /// The course worked on.
    pub canvas_course_id: String,
    /// The course's display name.
    pub canvas_course_name: String,
    /// The roster file generated from the LMS.
    pub canvas_yaml_file: String,
    /// Where generated files are placed.
    pub canvas_info_folder: String,
    /// The delimited-text student list.
    pub canvas_csv_file: String,
    /// The spreadsheet student list.
    pub canvas_xlsx_file: String,
    /// Which member identifiers rosters list.
    pub canvas_member_option: String,
    pub canvas_include_group: bool,
    pub canvas_include_member: bool,
    pub canvas_include_initials: bool,
    pub canvas_full_groups: bool,
    pub canvas_output_csv: bool,
    pub canvas_output_xlsx: bool,
    pub canvas_output_yaml: bool,
    /// The hosting backend's base URL.
    pub git_base_url: String,
    /// The hosting backend's access token.
    pub git_access_token: String,
    /// The acting user on the hosting backend.
    pub git_user: String,
    /// The organization student repositories go into.
    pub git_student_repos_group: String,
    /// Where template repositories live.
    pub git_template_group: String,
    /// The roster file setup reads.
    pub yaml_file: String,
    /// Where cloned repositories are placed.
    pub target_folder: String,
    /// The comma-separated assignment names.
    pub assignments: String,
    /// How cloned repositories are laid out: `by-team`, `flat` or `by-task`.
    pub directory_layout: String,
    pub log_info: bool,
    pub log_debug: bool,
    pub log_warning: bool,
    pub log_error: bool,
}

/// The abstract value of a `CommonSettings`.
pub struct CommonSettingsView {
    pub canvas_base_url: Seq<char>,
    pub canvas_custom_url: Seq<char>,
    pub canvas_url_option: Seq<char>,
    pub canvas_access_token: Seq<char>,
    pub canvas_course_id: Seq<char>,
    pub canvas_course_name: Seq<char>,
    pub canvas_yaml_file: Seq<char>,
    pub canvas_info_folder: Seq<char>,
    pub canvas_csv_file: Seq<char>,
    pub canvas_xlsx_file: Seq<char>,
    pub canvas_member_option: Seq<char>,
    pub canvas_include_group: bool,
    pub canvas_include_member: bool,
    pub canvas_include_initials: bool,
    pub canvas_full_groups: bool,
    pub canvas_output_csv: bool,
    pub canvas_output_xlsx: bool,
    pub canvas_output_yaml: bool,
    pub git_base_url: Seq<char>,
    pub git_access_token: Seq<char>,
    pub git_user: Seq<char>,
    pub git_student_repos_group: Seq<char>,
    pub git_template_group: Seq<char>,
    pub yaml_file: Seq<char>,
    pub target_folder: Seq<char>,
    pub assignments: Seq<char>,
    pub directory_layout: Seq<char>,
    pub log_info: bool,
    pub log_debug: bool,
    pub log_warning: bool,
    pub log_error: bool,
}

impl View for CommonSettings {
    type V = CommonSettingsView;

    open spec fn view(&self) -> CommonSettingsView {
        CommonSettingsView {
            canvas_base_url: self.canvas_base_url@,
            canvas_custom_url: self.canvas_custom_url@,
            canvas_url_option: self.canvas_url_option@,
            canvas_access_token: self.canvas_access_token@,
            canvas_course_id: self.canvas_course_id@,
            canvas_course_name: self.canvas_course_name@,
            canvas_yaml_file: self.canvas_yaml_file@,
            canvas_info_folder: self.canvas_info_folder@,
            canvas_csv_file: self.canvas_csv_file@,
            canvas_xlsx_file: self.canvas_xlsx_file@,
            canvas_member_option: self.canvas_member_option@,
            canvas_include_group: self.canvas_include_group,
            canvas_include_member: self.canvas_include_member,
            canvas_include_initials: self.canvas_include_initials,
            canvas_full_groups: self.canvas_full_groups,
            canvas_output_csv: self.canvas_output_csv,
            canvas_output_xlsx: self.canvas_output_xlsx,
            canvas_output_yaml: self.canvas_output_yaml,
            git_base_url: self.git_base_url@,
            git_access_token: self.git_access_token@,
            git_user: self.git_user@,
            git_student_repos_group: self.git_student_repos_group@,
            git_template_group: self.git_template_group@,
            yaml_file: self.yaml_file@,
            target_folder: self.target_folder@,
            assignments: self.assignments@,
            directory_layout: self.directory_layout@,
            log_info: self.log_info,
            log_debug: self.log_debug,
            log_warning: self.log_warning,
            log_error: self.log_error,
        }
    }
}

/// The default common settings as an abstract value.
pub open spec fn common_default() -> CommonSettingsView {
    CommonSettingsView {
        canvas_base_url: "https://canvas.tue.nl"@,
        canvas_custom_url: Seq::<char>::empty(),
        canvas_url_option: "TUE"@,
        canvas_access_token: Seq::<char>::empty(),
        canvas_course_id: Seq::<char>::empty(),
        canvas_course_name: Seq::<char>::empty(),
        canvas_yaml_file: "students.yaml"@,
        canvas_info_folder: Seq::<char>::empty(),
        canvas_csv_file: "student-info.csv"@,
        canvas_xlsx_file: "student-info.xlsx"@,
        canvas_member_option: "(email, gitid)"@,
        canvas_include_group: true,
        canvas_include_member: true,
        canvas_include_initials: false,
        canvas_full_groups: true,
        canvas_output_csv: false,
        canvas_output_xlsx: false,
        canvas_output_yaml: true,
        git_base_url: "https://gitlab.tue.nl"@,
        git_access_token: Seq::<char>::empty(),
        git_user: Seq::<char>::empty(),
        git_student_repos_group: Seq::<char>::empty(),
        git_template_group: Seq::<char>::empty(),
        yaml_file: "students.yaml"@,
        target_folder: Seq::<char>::empty(),
        assignments: Seq::<char>::empty(),
        directory_layout: "flat"@,
        log_info: true,
        log_debug: false,
        log_warning: true,
        log_error: true,
    }
}

impl Default for CommonSettings {
    /// The settings a fresh installation starts from.
    fn default() -> (r: CommonSettings)
        ensures
            r@ == common_default(),
    {
        CommonSettings {
            canvas_base_url: crate::settings::defaults::canvas_base_url(),
            canvas_custom_url: String::new(),
            canvas_url_option: crate::settings::defaults::canvas_url_option(),
            canvas_access_token: String::new(),
            canvas_course_id: String::new(),
            canvas_course_name: String::new(),
            canvas_yaml_file: crate::settings::defaults::canvas_yaml_file(),
            canvas_info_folder: String::new(),
            canvas_csv_file: crate::settings::defaults::canvas_csv_file(),
            canvas_xlsx_file: crate::settings::defaults::canvas_xlsx_file(),
            canvas_member_option: crate::settings::defaults::canvas_member_option(),
            canvas_include_group: crate::settings::defaults::canvas_include_group(),
            canvas_include_member: crate::settings::defaults::canvas_include_member(),
            canvas_include_initials: false,
            canvas_full_groups: crate::settings::defaults::canvas_full_groups(),
            canvas_output_csv: false,
            canvas_output_xlsx: false,
            canvas_output_yaml: crate::settings::defaults::canvas_output_yaml(),
            git_base_url: crate::settings::defaults::git_base_url(),
            git_access_token: String::new(),
            git_user: String::new(),
            git_student_repos_group: String::new(),
            git_template_group: String::new(),
            yaml_file: crate::settings::defaults::yaml_file(),
            target_folder: String::new(),
            assignments: String::new(),
            directory_layout: crate::settings::defaults::directory_layout(),
            log_info: crate::settings::defaults::log_info(),
            log_debug: false,
            log_warning: crate::settings::defaults::log_warning(),
            log_error: crate::settings::defaults::log_error(),
        }
    }
}

/// A view with the three base URLs stripped of trailing slashes and all
/// other values unchanged.
pub open spec fn normalized_common(v: CommonSettingsView) -> CommonSettingsView {
    CommonSettingsView {
        canvas_base_url: trimmed_end(v.canvas_base_url, '/'),
        canvas_custom_url: trimmed_end(v.canvas_custom_url, '/'),
        git_base_url: trimmed_end(v.git_base_url, '/'),
        ..v
    }
}

/// Whether the enumerated common settings hold allowed values.
pub open spec fn common_valid(v: CommonSettingsView) -> bool {
    &&& (v.canvas_url_option == "TUE"@ || v.canvas_url_option == "Custom"@)
    &&& (v.canvas_member_option == "(email, gitid)"@ || v.canvas_member_option == "email"@
        || v.canvas_member_option == "git_id"@)
    &&& (v.directory_layout == "by-team"@ || v.directory_layout == "flat"@ || v.directory_layout
        == "by-task"@)
}

impl CommonSettings {
    /// Strips trailing slashes from the three base URLs.
    pub fn normalize(&mut self)
        ensures
            final(self)@ == normalized_common(old(self)@),
    {
        self.canvas_base_url = trim_end_char(self.canvas_base_url.as_str(), '/');
        self.canvas_custom_url = trim_end_char(self.canvas_custom_url.as_str(), '/');
        self.git_base_url = trim_end_char(self.git_base_url.as_str(), '/');
    }

    /// Checks the enumerated settings, reporting one message per value
    /// outside its allowed set.
    pub fn validate(&self) -> (r: Result<(), ConfigError>)
        ensures
            r is Ok <==> common_valid(self@),
    {
        let mut msgs: Vec<String> = Vec::new();
        if !(str_eq(self.canvas_url_option.as_str(), "TUE") || str_eq(
            self.canvas_url_option.as_str(),
            "Custom",
        )) {
            msgs.push(String::from_str("canvas_url_option must be TUE or Custom"));
        }
        if !(str_eq(self.canvas_member_option.as_str(), "(email, gitid)") || str_eq(
            self.canvas_member_option.as_str(),
            "email",
        ) || str_eq(self.canvas_member_option.as_str(), "git_id")) {
            msgs.push(
                String::from_str("canvas_member_option must be (email, gitid), email or git_id"),
            );
        }
        if !(str_eq(self.directory_layout.as_str(), "by-team") || str_eq(
            self.directory_layout.as_str(),
            "flat",
        ) || str_eq(self.directory_layout.as_str(), "by-task")) {
            msgs.push(String::from_str("directory_layout must be by-team, flat or by-task"));
        }
        if msgs.len() == 0 {
            Ok(())
        } else {
            Err(ConfigError::ValidationFailed(msgs))
        }
    }
}

} // verus!
