//! Classification of diagnostic messages for the out-of-band sink.
//!
//! The validation layer reports each message with a severity bit and a
//! category bit. The library maps the raw bits to their labels; the front end
//! only prints. Nothing in the loop's control flow depends on these values.

use vstd::prelude::*;

verus! {

/// Severity bit for verbose diagnostic output.
pub const SEVERITY_VERBOSE: u32 = 0x1;

/// Severity bit for informational messages.
pub const SEVERITY_INFO: u32 = 0x10;

/// Severity bit for warnings.
pub const SEVERITY_WARNING: u32 = 0x100;

/// Severity bit for errors.
pub const SEVERITY_ERROR: u32 = 0x1000;

/// Category bit for general messages.
pub const CATEGORY_GENERAL: u32 = 0x1;

/// Category bit for validation findings.
pub const CATEGORY_VALIDATION: u32 = 0x2;

/// Category bit for performance advice.
pub const CATEGORY_PERFORMANCE: u32 = 0x4;

/// Message severity, as the sink labels it.
#[derive(Clone, Copy, PartialEq, Eq, Structural, Debug)]
pub enum Severity {
    Verbose,
    Info,
    Warning,
    Error,
    Unknown,
}

/// Message category, as the sink labels it.
#[derive(Clone, Copy, PartialEq, Eq, Structural, Debug)]
pub enum Category {
    General,
    Validation,
    Performance,
    Unknown,
}

/// The severity a raw severity word stands for: a word is recognized only
/// when it is exactly one known severity bit.
pub open spec fn spec_classify_severity(bits: u32) -> Severity {
    if bits == SEVERITY_VERBOSE {
        Severity::Verbose
    } else if bits == SEVERITY_INFO {
        Severity::Info
    } else if bits == SEVERITY_WARNING {
        Severity::Warning
    } else if bits == SEVERITY_ERROR {
        Severity::Error
    } else {
        Severity::Unknown
    }
}

/// Classifies a raw severity word.
pub fn classify_severity(bits: u32) -> (r: Severity)
    ensures
        r == spec_classify_severity(bits),
{
    if bits == SEVERITY_VERBOSE {
        Severity::Verbose
    } else if bits == SEVERITY_INFO {
        Severity::Info
    } else if bits == SEVERITY_WARNING {
        Severity::Warning
    } else if bits == SEVERITY_ERROR {
        Severity::Error
    } else {
        Severity::Unknown
    }
}

/// The category a raw category word stands for: a word is recognized only
/// when it is exactly one known category bit.
pub open spec fn spec_classify_category(bits: u32) -> Category {
    if bits == CATEGORY_GENERAL {
        Category::General
    } else if bits == CATEGORY_VALIDATION {
        Category::Validation
    } else if bits == CATEGORY_PERFORMANCE {
        Category::Performance
    } else {
        Category::Unknown
    }
}

/// Classifies a raw category word.
pub fn classify_category(bits: u32) -> (r: Category)
    ensures
        r == spec_classify_category(bits),
{
    if bits == CATEGORY_GENERAL {
        Category::General
    } else if bits == CATEGORY_VALIDATION {
        Category::Validation
    } else if bits == CATEGORY_PERFORMANCE {
        Category::Performance
    } else {
        Category::Unknown
    }
}

/// The label the sink prints for a severity.
pub open spec fn spec_severity_label(s: Severity) -> Seq<char> {
    match s {
        Severity::Verbose => "[Verbose]"@,
        Severity::Info => "[Info]"@,
        Severity::Warning => "[Warning]"@,
        Severity::Error => "[Error]"@,
        Severity::Unknown => "[Unknown]"@,
    }
}

/// The label printed for a severity.
pub fn severity_label(s: Severity) -> (r: &'static str)
    ensures
        r@ == spec_severity_label(s),
{
    match s {
        Severity::Verbose => "[Verbose]",
        Severity::Info => "[Info]",
        Severity::Warning => "[Warning]",
        Severity::Error => "[Error]",
        Severity::Unknown => "[Unknown]",
    }
}

/// The label the sink prints for a category.
pub open spec fn spec_category_label(c: Category) -> Seq<char> {
    match c {
        Category::General => "[General]"@,
        Category::Validation => "[Validation]"@,
        Category::Performance => "[Performance]"@,
        Category::Unknown => "[Unknown]"@,
    }
}

/// The label printed for a category.
pub fn category_label(c: Category) -> (r: &'static str)
    ensures
        r@ == spec_category_label(c),
{
    match c {
        Category::General => "[General]",
        Category::Validation => "[Validation]",
        Category::Performance => "[Performance]",
        Category::Unknown => "[Unknown]",
    }
}

} // verus!
