//! The default values of the persisted settings, one function per value
//! that differs from an empty string or `false`.

use vstd::prelude::*;

verus! {

/// The Canvas instance used by default.
pub fn canvas_base_url() -> (r: String)
    ensures
        r@ == "https://canvas.tue.nl"@,
{
    String::from_str("https://canvas.tue.nl")
}

/// The default choice between the known Canvas URL and a custom one.
pub fn canvas_url_option() -> (r: String)
    ensures
        r@ == "TUE"@,
{
    String::from_str("TUE")
}

/// The default roster file name.
pub fn canvas_yaml_file() -> (r: String)
    ensures
        r@ == "students.yaml"@,
{
    String::from_str("students.yaml")
}

/// The default delimited-text student list name.
pub fn canvas_csv_file() -> (r: String)
    ensures
        r@ == "student-info.csv"@,
{
    String::from_str("student-info.csv")
}

/// The default spreadsheet student list name.
pub fn canvas_xlsx_file() -> (r: String)
    ensures
        r@ == "student-info.xlsx"@,
{
    String::from_str("student-info.xlsx")
}

/// By default rosters list both member identifiers.
pub fn canvas_member_option() -> (r: String)
    ensures
        r@ == "(email, gitid)"@,
{
    String::from_str("(email, gitid)")
}

/// Group names are included by default.
pub fn canvas_include_group() -> (r: bool)
    ensures
        r == true,
{
    true
}

/// Member lists are included by default.
pub fn canvas_include_member() -> (r: bool)
    ensures
        r == true,
{
    true
}

/// Only full groups are listed by default.
pub fn canvas_full_groups() -> (r: bool)
    ensures
        r == true,
{
    true
}

/// The roster file is generated by default.
pub fn canvas_output_yaml() -> (r: bool)
    ensures
        r == true,
{
    true
}

/// The hosting backend used by default.
pub fn git_base_url() -> (r: String)
    ensures
        r@ == "https://gitlab.tue.nl"@,
{
    String::from_str("https://gitlab.tue.nl")
}

/// The roster file that setup reads by default.
pub fn yaml_file() -> (r: String)
    ensures
        r@ == "students.yaml"@,
{
    String::from_str("students.yaml")
}

/// Cloned repositories land in one flat directory by default.
pub fn directory_layout() -> (r: String)
    ensures
        r@ == "flat"@,
{
    String::from_str("flat")
}

/// Informational messages are logged by default.
pub fn log_info() -> (r: bool)
    ensures
        r == true,
{
    true
}

/// Warnings are logged by default.
pub fn log_warning() -> (r: bool)
    ensures
        r == true,
{
    true
}

/// Errors are logged by default.
pub fn log_error() -> (r: bool)
    ensures
        r == true,
{
    true
}

/// The tab the graphical front end opens on.
pub fn active_tab() -> (r: String)
    ensures
        r@ == "canvas"@,
{
    String::from_str("canvas")
}

} // verus!
