//! Validation issues found in package definitions, and the collected result
//! of validating one package.

use vstd::prelude::*;

verus! {

/// Categories of package validation errors.
#[derive(Debug, Clone, Copy, PartialEq, Eq, Structural, Hash)]
pub enum ValidationErrorCategory {
    /// Missing required fields
    RequiredField,
    /// Invalid field values
    InvalidValue,
    /// Environment-specific errors
    Environment,
    /// Shell command syntax errors
    CommandSyntax,
    /// URL format errors
    UrlFormat,
    /// File system errors
    FileSystem,
    /// Availability and compatibility errors
    Availability,
    /// Other errors
    Other,
}

/// The label under which a category is shown to the user.
pub open spec fn category_label(c: ValidationErrorCategory) -> Seq<char> {
    match c {
        ValidationErrorCategory::RequiredField => "Required field"@,
        ValidationErrorCategory::InvalidValue => "Invalid value"@,
        ValidationErrorCategory::Environment => "Environment"@,
        ValidationErrorCategory::CommandSyntax => "Command syntax"@,
        ValidationErrorCategory::UrlFormat => "URL format"@,
        ValidationErrorCategory::FileSystem => "File system"@,
        ValidationErrorCategory::Availability => "Availability"@,
        ValidationErrorCategory::Other => "Other"@,
    }
}

/// The name of the category's variant, as the debug rendering writes it.
pub open spec fn category_name(c: ValidationErrorCategory) -> Seq<char> {
    match c {
        ValidationErrorCategory::RequiredField => "RequiredField"@,
        ValidationErrorCategory::InvalidValue => "InvalidValue"@,
        ValidationErrorCategory::Environment => "Environment"@,
        ValidationErrorCategory::CommandSyntax => "CommandSyntax"@,
        ValidationErrorCategory::UrlFormat => "UrlFormat"@,
        ValidationErrorCategory::FileSystem => "FileSystem"@,
        ValidationErrorCategory::Availability => "Availability"@,
        ValidationErrorCategory::Other => "Other"@,
    }
}

impl ValidationErrorCategory {
    /// The human-readable label of the category.
    pub fn label(&self) -> (r: &'static str)
        ensures
            r@ == category_label(*self),
    {
        match self {
            ValidationErrorCategory::RequiredField => "Required field",
            ValidationErrorCategory::InvalidValue => "Invalid value",
            ValidationErrorCategory::Environment => "Environment",
            ValidationErrorCategory::CommandSyntax => "Command syntax",
            ValidationErrorCategory::UrlFormat => "URL format",
            ValidationErrorCategory::FileSystem => "File system",
            ValidationErrorCategory::Availability => "Availability",
            ValidationErrorCategory::Other => "Other",
        }
    }

    /// The variant's name.
    pub fn name(&self) -> (r: &'static str)
        ensures
            r@ == category_name(*self),
    {
        match self {
            ValidationErrorCategory::RequiredField => "RequiredField",
            ValidationErrorCategory::InvalidValue => "InvalidValue",
            ValidationErrorCategory::Environment => "Environment",
            ValidationErrorCategory::CommandSyntax => "CommandSyntax",
            ValidationErrorCategory::UrlFormat => "UrlFormat",
            ValidationErrorCategory::FileSystem => "FileSystem",
            ValidationErrorCategory::Availability => "Availability",
            ValidationErrorCategory::Other => "Other",
        }
    }

    /// The same category (categories are plain values).
    pub fn same(&self) -> (r: ValidationErrorCategory)
        ensures
            r == *self,
    {
        *self
    }
}

/// The abstract content of a validation issue.
pub struct IssueView {
    pub category: ValidationErrorCategory,
    pub field: Seq<char>,
    pub message: Seq<char>,
    pub line: Option<usize>,
    pub is_warning: bool,
    pub suggestion: Option<Seq<char>>,
}

/// The characters of an optional string.
pub open spec fn opt_view(o: Option<String>) -> Option<Seq<char>> {
    match o {
        Some(s) => Some(s@),
        None => None,
    }
}

/// An error issue with no line number and the given suggestion.
pub open spec fn error_issue(
    category: ValidationErrorCategory,
    field: Seq<char>,
    message: Seq<char>,
    suggestion: Seq<char>,
) -> IssueView {
    IssueView { category, field, message, line: None, is_warning: false, suggestion: Some(suggestion) }
}

/// A warning issue with no line number and the given suggestion.
pub open spec fn warning_issue(
    category: ValidationErrorCategory,
    field: Seq<char>,
    message: Seq<char>,
    suggestion: Seq<char>,
) -> IssueView {
    IssueView { category, field, message, line: None, is_warning: true, suggestion: Some(suggestion) }
}

/// A single validation issue (error or warning).
#[derive(Debug, Clone, PartialEq)]
pub struct ValidationIssue {
    /// The category of the issue
    pub category: ValidationErrorCategory,
    /// The field or context where the issue was found
    pub field: String,
    /// Detailed description of the issue
    pub message: String,
    /// Line number in the file (if available)
    pub line: Option<usize>,
    /// Is this a warning (false = error)
    pub is_warning: bool,
    /// Suggested fix for the issue
    pub suggestion: Option<String>,
}

impl View for ValidationIssue {
    type V = IssueView;

    open spec fn view(&self) -> IssueView {
        IssueView {
            category: self.category,
            field: self.field@,
            message: self.message@,
            line: self.line,
            is_warning: self.is_warning,
            suggestion: opt_view(self.suggestion),
        }
    }
}

/// The abstract contents of a list of issues.
pub open spec fn issues_view(s: Seq<ValidationIssue>) -> Seq<IssueView> {
    s.map_values(|i: ValidationIssue| i@)
}

/// The characters of an optional string slice.
pub open spec fn opt_str_view(o: Option<&str>) -> Option<Seq<char>> {
    match o {
        Some(s) => Some(s@),
        None => None,
    }
}

fn opt_to_string(o: Option<&str>) -> (r: Option<String>)
    ensures
        opt_view(r) == opt_str_view(o),
{
    match o {
        Some(s) => Some(String::from_str(s)),
        None => None,
    }
}

impl ValidationIssue {
    /// Create a new validation error.
    pub fn error(
        category: ValidationErrorCategory,
        field: &str,
        message: &str,
        line: Option<usize>,
        suggestion: Option<&str>,
    ) -> (r: Self)
        ensures
            r@ == (IssueView {
                category,
                field: field@,
                message: message@,
                line,
                is_warning: false,
                suggestion: opt_str_view(suggestion),
            }),
    {
        ValidationIssue {
            category,
            field: String::from_str(field),
            message: String::from_str(message),
            line,
            is_warning: false,
            suggestion: opt_to_string(suggestion),
        }
    }

    /// Create a new validation warning.
    pub fn warning(
        category: ValidationErrorCategory,
        field: &str,
        message: &str,
        line: Option<usize>,
        suggestion: Option<&str>,
    ) -> (r: Self)
        ensures
            r@ == (IssueView {
                category,
                field: field@,
                message: message@,
                line,
                is_warning: true,
                suggestion: opt_str_view(suggestion),
            }),
    {
        ValidationIssue {
            category,
            field: String::from_str(field),
            message: String::from_str(message),
            line,
            is_warning: true,
            suggestion: opt_to_string(suggestion),
        }
    }
}

/// Results of a package validation.
#[derive(Debug, Clone, Default)]
pub struct ValidationResult {
    /// The package that was validated
    pub package_name: String,
    /// The package file path
    pub package_path: Option<String>,
    /// List of validation issues found
    pub issues: Vec<ValidationIssue>,
    /// The validated package (if valid)
    pub package: Option<crate::domain::package::Package>,
}

/// The issues among `s` that satisfy `keep`, as references.
fn collect_matching<'a>(s: &'a Vec<ValidationIssue>, Ghost(keep): Ghost<spec_fn(ValidationIssue) -> bool>, which: u8, category: ValidationErrorCategory) -> (r: Vec<&'a ValidationIssue>)
    requires
        which == 0 ==> keep == (|i: ValidationIssue| !i.is_warning),
        which == 1 ==> keep == (|i: ValidationIssue| i.is_warning),
        which == 2 ==> keep == (|i: ValidationIssue| i.category == category),
        which <= 2,
    ensures
        r@.map_values(|x: &ValidationIssue| *x) == s@.filter(keep),
{
    let mut r: Vec<&ValidationIssue> = Vec::new();
    let mut i: usize = 0;
    while i < s.len()
        invariant
            i <= s.len(),
            which == 0 ==> keep == (|i: ValidationIssue| !i.is_warning),
            which == 1 ==> keep == (|i: ValidationIssue| i.is_warning),
            which == 2 ==> keep == (|i: ValidationIssue| i.category == category),
            which <= 2,
            r@.map_values(|x: &ValidationIssue| *x) == s@.take(i as int).filter(keep),
        decreases s.len() - i,
    {
        let item = &s[i];
        let take = if which == 0 {
            !item.is_warning
        } else if which == 1 {
            item.is_warning
        } else {
            item.category == category
        };
        proof {
            assert(s@.take(i + 1) =~= s@.take(i as int).push(s@[i as int]));
            s@.take(i as int).lemma_filter_push(s@[i as int], keep);
        }
        let ghost before = r@;
        if take {
            r.push(item);
            assert(r@.map_values(|x: &ValidationIssue| *x) =~= before.map_values(|x: &ValidationIssue| *x).push(*item));
        }
        i = i + 1;
    }
    assert(s@.take(s.len() as int) =~= s@);
    r
}

/// The issues that are errors, in order.
pub open spec fn error_issues(issues: Seq<ValidationIssue>) -> Seq<ValidationIssue> {
    issues.filter(|i: ValidationIssue| !i.is_warning)
}

/// The issues that are warnings, in order.
pub open spec fn warning_issues(issues: Seq<ValidationIssue>) -> Seq<ValidationIssue> {
    issues.filter(|i: ValidationIssue| i.is_warning)
}

/// The issues of a category, in order.
pub open spec fn category_issues(issues: Seq<ValidationIssue>, c: ValidationErrorCategory) -> Seq<ValidationIssue> {
    issues.filter(|i: ValidationIssue| i.category == c)
}

/// Some issue is an error.
pub open spec fn has_error_issue(issues: Seq<ValidationIssue>) -> bool {
    exists|k: int| 0 <= k < issues.len() && !#[trigger] issues[k].is_warning
}

/// The number of issues of each category, added up over all categories.
pub open spec fn categories_total(issues: Seq<ValidationIssue>) -> nat {
    category_issues(issues, ValidationErrorCategory::RequiredField).len()
        + category_issues(issues, ValidationErrorCategory::InvalidValue).len()
        + category_issues(issues, ValidationErrorCategory::Environment).len()
        + category_issues(issues, ValidationErrorCategory::CommandSyntax).len()
        + category_issues(issues, ValidationErrorCategory::UrlFormat).len()
        + category_issues(issues, ValidationErrorCategory::FileSystem).len()
        + category_issues(issues, ValidationErrorCategory::Availability).len()
        + category_issues(issues, ValidationErrorCategory::Other).len()
}

/// Every issue is either an error or a warning: the errors and the warnings
/// together are as many as the issues, and there are errors exactly when the
/// list of errors is not empty.
pub proof fn law_errors_and_warnings(issues: Seq<ValidationIssue>)
    ensures
        error_issues(issues).len() + warning_issues(issues).len() == issues.len(),
        has_error_issue(issues) == (error_issues(issues).len() > 0),
    decreases issues.len(),
{
    reveal_with_fuel(Seq::filter, 2);
    if issues.len() > 0 {
        let t = issues.drop_last();
        law_errors_and_warnings(t);
        if has_error_issue(t) {
            let k = choose|k: int| 0 <= k < t.len() && !#[trigger] t[k].is_warning;
            assert(!issues[k].is_warning);
        }
        if has_error_issue(issues) {
            let k = choose|k: int| 0 <= k < issues.len() && !#[trigger] issues[k].is_warning;
            if k < t.len() {
                assert(!t[k].is_warning);
            }
        }
    }
}

/// Every issue has exactly one category: the lists of the issues of each
/// category together are as many as the issues.
pub proof fn law_categories_partition(issues: Seq<ValidationIssue>)
    ensures
        categories_total(issues) == issues.len(),
    decreases issues.len(),
{
    reveal_with_fuel(Seq::filter, 2);
    if issues.len() > 0 {
        law_categories_partition(issues.drop_last());
    }
}

impl ValidationResult {
    /// Create a new ValidationResult.
    pub fn new(package_name: &str) -> (r: Self)
        ensures
            r.package_name@ == package_name@,
            r.package_path.is_none(),
            r.issues@.len() == 0,
            r.package.is_none(),
    {
        ValidationResult {
            package_name: String::from_str(package_name),
            package_path: None,
            issues: Vec::new(),
            package: None,
        }
    }

    /// Add an issue to the validation result.
    pub fn add_issue(&mut self, issue: ValidationIssue)
        ensures
            final(self).issues@ == old(self).issues@.push(issue),
            final(self).package_name == old(self).package_name,
            final(self).package_path == old(self).package_path,
            final(self).package == old(self).package,
    {
        self.issues.push(issue);
    }

    /// Add multiple issues to the validation result.
    pub fn add_issues(&mut self, issues: Vec<ValidationIssue>)
        ensures
            final(self).issues@ == old(self).issues@ + issues@,
            final(self).package_name == old(self).package_name,
            final(self).package_path == old(self).package_path,
            final(self).package == old(self).package,
    {
        let mut issues = issues;
        self.issues.append(&mut issues);
    }

    /// Set the package file path.
    pub fn with_path(self, path: String) -> (r: Self)
        ensures
            r.package_path == Some(path),
            r.package_name == self.package_name,
            r.issues == self.issues,
            r.package == self.package,
    {
        let mut s = self;
        s.package_path = Some(path);
        s
    }

    /// Set the validated package.
    pub fn with_package(self, package: crate::domain::package::Package) -> (r: Self)
        ensures
            r.package == Some(package),
            r.package_name == self.package_name,
            r.issues == self.issues,
            r.package_path == self.package_path,
    {
        let mut s = self;
        s.package = Some(package);
        s
    }

    /// Returns true if the validation passed (no errors).
    pub fn is_valid(&self) -> (r: bool)
        ensures
            r == !has_error_issue(self.issues@),
    {
        !self.has_errors()
    }

    /// Returns true if the validation has errors (warnings are okay).
    pub fn has_errors(&self) -> (r: bool)
        ensures
            r == has_error_issue(self.issues@),
    {
        let mut i: usize = 0;
        while i < self.issues.len()
            invariant
                i <= self.issues.len(),
                forall|j: int| 0 <= j < i ==> self.issues@[j].is_warning,
            decreases self.issues.len() - i,
        {
            if !self.issues[i].is_warning {
                return true;
            }
            i = i + 1;
        }
        false
    }

    /// Get all errors (not warnings), in order.
    pub fn errors(&self) -> (r: Vec<&ValidationIssue>)
        ensures
            r@.map_values(|x: &ValidationIssue| *x) == error_issues(self.issues@),
    {
        collect_matching(&self.issues, Ghost(|i: ValidationIssue| !i.is_warning), 0, ValidationErrorCategory::Other)
    }

    /// Get all warnings (not errors), in order.
    pub fn warnings(&self) -> (r: Vec<&ValidationIssue>)
        ensures
            r@.map_values(|x: &ValidationIssue| *x) == warning_issues(self.issues@),
    {
        collect_matching(&self.issues, Ghost(|i: ValidationIssue| i.is_warning), 1, ValidationErrorCategory::Other)
    }

    /// Get the issues of one category, in order.
    pub fn issues_by_category(&self, category: &ValidationErrorCategory) -> (r: Vec<&ValidationIssue>)
        ensures
            r@.map_values(|x: &ValidationIssue| *x) == category_issues(self.issues@, *category),
    {
        let c = *category;
        collect_matching(&self.issues, Ghost(|i: ValidationIssue| i.category == c), 2, c)
    }
}

} // verus!
