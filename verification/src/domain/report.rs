//! The text shown to the user for a validation result: a headline, the
//! warnings or the errors grouped by category, where the package file is, and
//! on request the details of the file and of the package.

use vstd::prelude::*;

use crate::adapters::progress::ProgressManager;
use crate::domain::package::{EnvEntries, Package};
use crate::domain::validation::{
    category_name, issues_view, opt_view, IssueView, ValidationErrorCategory, ValidationIssue,
    ValidationResult,
};
use crate::styling::{painted, push_painted, Paint};
use crate::text::{bool_string, bool_text, decimal, decimal_string, octal, octal_string, opt_text, push_opt};

verus! {

/// What the file system says of a package file, as plain text: its
/// permission bits, and when it was created and last modified, each with how
/// long ago that was.
#[derive(Debug, Clone, PartialEq)]
pub struct FileDetails {
    pub permissions: u32,
    pub created: String,
    pub created_ago: String,
    pub modified: String,
    pub modified_ago: String,
}

/// The line that suggests a fix, when there is one.
pub open spec fn suggestion_text(c: bool, s: Option<Seq<char>>) -> Seq<char> {
    match s {
        Some(x) => painted(c, Paint::Dim, "    Suggestion: "@ + x) + "\n"@,
        None => Seq::empty(),
    }
}

/// The lines of one error.
pub open spec fn error_entry(c: bool, i: IssueView) -> Seq<char> {
    "  • "@ + painted(c, Paint::Cyan, i.field) + ": "@ + i.message + "\n"@ + suggestion_text(c, i.suggestion)
}

/// The lines of one warning, with its field when `with_field`.
pub open spec fn warning_entry(c: bool, with_field: bool, i: IssueView) -> Seq<char> {
    painted(c, Paint::Yellow, "  ! "@) + (if with_field { i.field + ": "@ } else { Seq::empty() }) + i.message + "\n"@
        + suggestion_text(c, i.suggestion)
}

/// The lines of a list of errors, in order.
pub open spec fn error_entries(c: bool, s: Seq<IssueView>) -> Seq<char>
    decreases s.len(),
{
    if s.len() == 0 {
        Seq::empty()
    } else {
        error_entries(c, s.drop_last()) + error_entry(c, s.last())
    }
}

/// The lines of a list of warnings, in order.
pub open spec fn warning_entries(c: bool, with_field: bool, s: Seq<IssueView>) -> Seq<char>
    decreases s.len(),
{
    if s.len() == 0 {
        Seq::empty()
    } else {
        warning_entries(c, with_field, s.drop_last()) + warning_entry(c, with_field, s.last())
    }
}

/// The errors (not warnings) of one category, in order.
pub open spec fn errors_in(s: Seq<IssueView>, cat: ValidationErrorCategory) -> Seq<IssueView> {
    s.filter(|i: IssueView| !i.is_warning && i.category == cat)
}

/// The warnings, in order.
pub open spec fn warnings_in(s: Seq<IssueView>) -> Seq<IssueView> {
    s.filter(|i: IssueView| i.is_warning)
}

/// The heading of a category's errors.
pub open spec fn category_header(cat: ValidationErrorCategory) -> Seq<char> {
    match cat {
        ValidationErrorCategory::RequiredField => "Required field errors"@,
        ValidationErrorCategory::CommandSyntax => "Command syntax errors"@,
        ValidationErrorCategory::UrlFormat => "URL format errors"@,
        _ => category_name(cat) + " errors"@,
    }
}

/// The section of a category's errors; nothing when it has none.
pub open spec fn category_section(c: bool, cat: ValidationErrorCategory, s: Seq<IssueView>) -> Seq<char> {
    if errors_in(s, cat).len() == 0 {
        Seq::empty()
    } else {
        painted(c, Paint::RedBold, "\n"@ + category_header(cat) + ":"@) + "\n"@ + error_entries(c, errors_in(s, cat))
    }
}

/// The order in which categories are reported: required fields, command
/// syntax and URL format first, then the others.
pub open spec fn category_order() -> Seq<ValidationErrorCategory> {
    seq![
        ValidationErrorCategory::RequiredField,
        ValidationErrorCategory::CommandSyntax,
        ValidationErrorCategory::UrlFormat,
        ValidationErrorCategory::InvalidValue,
        ValidationErrorCategory::Environment,
        ValidationErrorCategory::FileSystem,
        ValidationErrorCategory::Availability,
        ValidationErrorCategory::Other,
    ]
}

/// The sections of the given categories, in order.
pub open spec fn sections_of(c: bool, cats: Seq<ValidationErrorCategory>, s: Seq<IssueView>) -> Seq<char>
    decreases cats.len(),
{
    if cats.len() == 0 {
        Seq::empty()
    } else {
        sections_of(c, cats.drop_last(), s) + category_section(c, cats.last(), s)
    }
}

/// The error sections of all categories, in the reporting order.
pub open spec fn error_sections(c: bool, s: Seq<IssueView>) -> Seq<char> {
    sections_of(c, category_order(), s)
}

/// The warnings block; nothing when there is no warning.
pub open spec fn warnings_block(c: bool, with_field: bool, s: Seq<IssueView>) -> Seq<char> {
    if warnings_in(s).len() == 0 {
        Seq::empty()
    } else {
        "\n"@ + painted(c, Paint::YellowBold, "Warnings:"@) + "\n"@ + warning_entries(c, with_field, warnings_in(s))
    }
}

/// Where the package file can be found, when its path is known.
pub open spec fn path_note(c: bool, path: Option<Seq<char>>) -> Seq<char> {
    match path {
        Some(p) => painted(c, Paint::Dim, "\nYou can find the package file at: "@ + p) + "\n"@,
        None => Seq::empty(),
    }
}

/// The report of a package that failed validation.
pub open spec fn failure_report(c: bool, name: Seq<char>, s: Seq<IssueView>, path: Option<Seq<char>>) -> Seq<char> {
    painted(c, Paint::RedBold, "✗"@) + " Validation failed for package: "@ + painted(c, Paint::MagentaBold, name) + "\n"@
        + error_sections(c, s) + path_note(c, path)
}

/// The details of the package file: its path, then what the file system said of it.
pub open spec fn file_details_text(c: bool, path: Option<Seq<char>>, d: Option<FileDetails>) -> Seq<char> {
    match path {
        Some(p) => "\nPackage file details:\n"@ + "  Path: "@ + p + "\n"@ + match d {
            Some(d) => "  Permissions: "@ + octal(d.permissions as nat) + "\n"@
                + painted(c, Paint::Dim, "  Created:"@) + " "@ + d.created@ + " ("@ + d.created_ago@ + " ago)\n"@
                + painted(c, Paint::Dim, "  Modified:"@) + " "@ + d.modified@ + " ("@ + d.modified_ago@ + " ago)\n"@,
            None => Seq::empty(),
        },
        None => Seq::empty(),
    }
}

/// One line per dependency.
pub open spec fn dependency_lines(deps: Seq<Seq<char>>) -> Seq<char>
    decreases deps.len(),
{
    if deps.len() == 0 {
        Seq::empty()
    } else {
        dependency_lines(deps.drop_last()) + "        "@ + deps.last() + "\n"@
    }
}

/// The lines of each environment: its name, check and install commands, and dependencies.
pub open spec fn environment_lines(m: EnvEntries) -> Seq<char>
    decreases m.len(),
{
    if m.len() == 0 {
        Seq::empty()
    } else {
        let (name, cfg) = m.last();
        environment_lines(m.drop_last()) + "    "@ + name + ":\n"@ + "      Check: "@ + opt_text(cfg.check) + "\n"@
            + "      Install: "@ + cfg.install + "\n"@ + "      Dependencies:\n"@ + dependency_lines(cfg.dependencies)
    }
}

/// The lines of the package's name (when `with_name`), version, homepage and description.
pub open spec fn package_summary_text(with_name: bool, p: Package) -> Seq<char> {
    (if with_name { "  Name: "@ + p.name@ + "\n"@ } else { Seq::empty() })
        + "  Version: "@ + p.version@ + "\n"@ + "  Homepage: "@ + opt_text(opt_view(p.homepage)) + "\n"@
        + "  Description: "@ + opt_text(opt_view(p.description)) + "\n"@
}

/// The details of the package's structure, with its name when `with_name`.
pub open spec fn package_details_text(with_name: bool, p: Option<Package>) -> Seq<char> {
    match p {
        Some(p) => "\nPackage structure details:\n"@ + package_summary_text(with_name, p) + "  Environments:\n"@
            + environment_lines(p.environments@),
        None => Seq::empty(),
    }
}

/// The issues of a result, as views.
pub open spec fn result_issues(r: ValidationResult) -> Seq<IssueView> {
    issues_view(r.issues@)
}

/// Whether a result has no error.
pub open spec fn result_is_valid(r: ValidationResult) -> bool {
    !(exists|i: int| 0 <= i < r.issues@.len() && !#[trigger] r.issues@[i].is_warning)
}

/// The headline of a valid package, with a check mark first when `mark`.
pub open spec fn valid_headline(c: bool, mark: bool, name: Seq<char>) -> Seq<char> {
    (if mark { painted(c, Paint::Green, "✓"@) + " "@ } else { Seq::empty() }) + "Package '"@
        + painted(c, Paint::MagentaBold, name) + "' is valid\n"@
}

/// The counts of a result's issues, errors and warnings, and whether it is valid.
pub open spec fn statistics_text(r: ValidationResult) -> Seq<char> {
    "\nValidation statistics:\n"@
        + "  Total issues: "@ + decimal(r.issues@.len()) + "\n"@
        + "  Errors: "@ + decimal(r.issues@.filter(|i: ValidationIssue| !i.is_warning).len()) + "\n"@
        + "  Warnings: "@ + decimal(r.issues@.filter(|i: ValidationIssue| i.is_warning).len()) + "\n"@
        + "  Is valid: "@ + bool_text(result_is_valid(r)) + "\n"@
}

/// The report written by the package validator: the headline with the
/// warnings, or the failure report; and, when `verbose`, the file and package
/// details.
pub open spec fn validator_report(r: ValidationResult, c: bool, verbose: bool, d: Option<FileDetails>) -> Seq<char> {
    (if result_is_valid(r) {
        valid_headline(c, true, r.package_name@) + warnings_block(c, false, result_issues(r))
    } else {
        failure_report(c, r.package_name@, result_issues(r), opt_view(r.package_path))
    }) + (if verbose {
        file_details_text(false, opt_view(r.package_path), d) + package_details_text(false, r.package)
    } else {
        Seq::empty()
    })
}

/// The verbose part of a failed result's report: file and package details and
/// counts of the issues.
pub open spec fn verbose_information(r: ValidationResult, c: bool, d: Option<FileDetails>) -> Seq<char> {
    "\n--- Verbose Information ---\n"@ + file_details_text(c, opt_view(r.package_path), d)
        + package_details_text(true, r.package) + statistics_text(r)
}

/// The report of a result: the headline with the warnings (each with its
/// field), or the failure report followed, when `verbose`, by the verbose
/// information.
pub open spec fn result_report(r: ValidationResult, c: bool, verbose: bool, d: Option<FileDetails>) -> Seq<char> {
    if result_is_valid(r) {
        valid_headline(c, false, r.package_name@) + warnings_block(c, true, result_issues(r))
    } else {
        failure_report(c, r.package_name@, result_issues(r), opt_view(r.package_path))
            + if verbose { verbose_information(r, c, d) } else { Seq::empty() }
    }
}

/// Viewing the issues of a prefix one longer adds the next issue's view.
proof fn lemma_view_take_push(s: Seq<ValidationIssue>, i: int)
    requires
        0 <= i < s.len(),
    ensures
        issues_view(s.take(i + 1)) == issues_view(s.take(i)).push(s[i]@),
{
    assert(issues_view(s.take(i + 1)) =~= issues_view(s.take(i)).push(s[i]@));
}

fn push_suggestion(out: &mut String, c: bool, s: &Option<String>)
    ensures
        final(out)@ == old(out)@ + suggestion_text(c, opt_view(*s)),
{
    match s {
        Some(x) => {
            let mut t = String::from_str("    Suggestion: ");
            t.append(x.as_str());
            push_painted(out, c, Paint::Dim, t.as_str());
            out.append("\n");
        },
        None => {},
    }
}

fn push_error_entry(out: &mut String, c: bool, issue: &ValidationIssue)
    ensures
        final(out)@ == old(out)@ + error_entry(c, issue@),
{
    out.append("  • ");
    push_painted(out, c, Paint::Cyan, issue.field.as_str());
    out.append(": ");
    out.append(issue.message.as_str());
    out.append("\n");
    push_suggestion(out, c, &issue.suggestion);
}

fn push_warning_entry(out: &mut String, c: bool, with_field: bool, issue: &ValidationIssue)
    ensures
        final(out)@ == old(out)@ + warning_entry(c, with_field, issue@),
{
    push_painted(out, c, Paint::Yellow, "  ! ");
    if with_field {
        out.append(issue.field.as_str());
        out.append(": ");
    }
    out.append(issue.message.as_str());
    out.append("\n");
    push_suggestion(out, c, &issue.suggestion);
}

/// Append the section of one category's errors.
fn push_category_section(out: &mut String, c: bool, cat: ValidationErrorCategory, header: &str, issues: &Vec<ValidationIssue>)
    requires
        header@ == category_header(cat),
    ensures
        final(out)@ == old(out)@ + category_section(c, cat, issues_view(issues@)),
{
    let ghost pred = |i: IssueView| !i.is_warning && i.category == cat;
    let mut lines = String::new();
    let mut any = false;
    let mut k: usize = 0;
    while k < issues.len()
        invariant
            k <= issues.len(),
            pred == (|i: IssueView| !i.is_warning && i.category == cat),
            lines@ == error_entries(c, issues_view(issues@.take(k as int)).filter(pred)),
            any == (issues_view(issues@.take(k as int)).filter(pred).len() > 0),
        decreases issues.len() - k,
    {
        let issue = &issues[k];
        proof {
            lemma_view_take_push(issues@, k as int);
            issues_view(issues@.take(k as int)).lemma_filter_push(issue@, pred);
        }
        if !issue.is_warning && issue.category == cat {
            let ghost f = issues_view(issues@.take(k as int)).filter(pred);
            assert(f.push(issue@).drop_last() =~= f);
            push_error_entry(&mut lines, c, issue);
            any = true;
        }
        k = k + 1;
    }
    assert(issues@.take(issues@.len() as int) =~= issues@);
    if any {
        let mut h = String::from_str("\n");
        h.append(header);
        h.append(":");
        push_painted(out, c, Paint::RedBold, h.as_str());
        out.append("\n");
        out.append(lines.as_str());
    }
}

/// The heading of a category's errors.
fn category_header_string(cat: ValidationErrorCategory) -> (r: String)
    ensures
        r@ == category_header(cat),
{
    proof {
        reveal_strlit("Required field errors");
        reveal_strlit("Command syntax errors");
        reveal_strlit("URL format errors");
    }
    match cat {
        ValidationErrorCategory::RequiredField => String::from_str("Required field errors"),
        ValidationErrorCategory::CommandSyntax => String::from_str("Command syntax errors"),
        ValidationErrorCategory::UrlFormat => String::from_str("URL format errors"),
        _ => crate::text::concat2(cat.name(), " errors"),
    }
}

/// The categories in reporting order.
fn category_order_vec() -> (r: Vec<ValidationErrorCategory>)
    ensures
        r@ == category_order(),
{
    let r = vec![
        ValidationErrorCategory::RequiredField,
        ValidationErrorCategory::CommandSyntax,
        ValidationErrorCategory::UrlFormat,
        ValidationErrorCategory::InvalidValue,
        ValidationErrorCategory::Environment,
        ValidationErrorCategory::FileSystem,
        ValidationErrorCategory::Availability,
        ValidationErrorCategory::Other,
    ];
    assert(r@ =~= category_order());
    r
}

/// Append the error sections of all categories.
fn push_error_sections(out: &mut String, c: bool, issues: &Vec<ValidationIssue>)
    ensures
        final(out)@ == old(out)@ + error_sections(c, issues_view(issues@)),
{
    let ghost s = issues_view(issues@);
    let ghost start = out@;
    let cats = category_order_vec();
    let mut k: usize = 0;
    while k < cats.len()
        invariant
            k <= cats@.len(),
            s == issues_view(issues@),
            out@ == start + sections_of(c, cats@.take(k as int), s),
        decreases cats.len() - k,
    {
        let cat = cats[k];
        let header = category_header_string(cat);
        let ghost before = out@;
        push_category_section(out, c, cat, header.as_str(), issues);
        proof {
            let t = cats@.take(k + 1);
            assert(t.drop_last() =~= cats@.take(k as int));
            assert(t.last() == cat);
            assert(out@ =~= start + sections_of(c, t, s));
        }
        k = k + 1;
    }
    assert(cats@.take(cats@.len() as int) =~= cats@);
}

/// Append the warnings block.
fn push_warnings_block(out: &mut String, c: bool, with_field: bool, issues: &Vec<ValidationIssue>)
    ensures
        final(out)@ == old(out)@ + warnings_block(c, with_field, issues_view(issues@)),
{
    let ghost pred = |i: IssueView| i.is_warning;
    let mut lines = String::new();
    let mut any = false;
    let mut k: usize = 0;
    while k < issues.len()
        invariant
            k <= issues.len(),
            pred == (|i: IssueView| i.is_warning),
            lines@ == warning_entries(c, with_field, issues_view(issues@.take(k as int)).filter(pred)),
            any == (issues_view(issues@.take(k as int)).filter(pred).len() > 0),
        decreases issues.len() - k,
    {
        let issue = &issues[k];
        proof {
            lemma_view_take_push(issues@, k as int);
            issues_view(issues@.take(k as int)).lemma_filter_push(issue@, pred);
        }
        if issue.is_warning {
            let ghost f = issues_view(issues@.take(k as int)).filter(pred);
            assert(f.push(issue@).drop_last() =~= f);
            push_warning_entry(&mut lines, c, with_field, issue);
            any = true;
        }
        k = k + 1;
    }
    assert(issues@.take(issues@.len() as int) =~= issues@);
    if any {
        out.append("\n");
        push_painted(out, c, Paint::YellowBold, "Warnings:");
        out.append("\n");
        out.append(lines.as_str());
    }
}

/// Append where the package file can be found.
fn push_path_note(out: &mut String, c: bool, path: &Option<String>)
    ensures
        final(out)@ == old(out)@ + path_note(c, opt_view(*path)),
{
    match path {
        Some(p) => {
            let mut t = String::from_str("\nYou can find the package file at: ");
            t.append(p.as_str());
            push_painted(out, c, Paint::Dim, t.as_str());
            out.append("\n");
        },
        None => {},
    }
}

/// Append the report of a failed result.
fn push_failure_report(out: &mut String, c: bool, r: &ValidationResult)
    ensures
        final(out)@ == old(out)@ + failure_report(c, r.package_name@, result_issues(*r), opt_view(r.package_path)),
{
    let ghost start = out@;
    push_painted(out, c, Paint::RedBold, "✗");
    out.append(" Validation failed for package: ");
    push_painted(out, c, Paint::MagentaBold, r.package_name.as_str());
    out.append("\n");
    push_error_sections(out, c, &r.issues);
    push_path_note(out, c, &r.package_path);
    assert(out@ =~= start + failure_report(c, r.package_name@, result_issues(*r), opt_view(r.package_path)));
}

/// Append the details of the package file.
fn push_file_details(out: &mut String, c: bool, path: &Option<String>, details: Option<&FileDetails>)
    ensures
        final(out)@ == old(out)@ + file_details_text(
            c,
            opt_view(*path),
            match details { Some(d) => Some(*d), None => None },
        ),
{
    let ghost start = out@;
    match path {
        Some(p) => {
            out.append("\nPackage file details:\n");
            out.append("  Path: ");
            out.append(p.as_str());
            out.append("\n");
            match details {
                Some(d) => {
                    out.append("  Permissions: ");
                    let o = octal_string(d.permissions);
                    out.append(o.as_str());
                    out.append("\n");
                    push_painted(out, c, Paint::Dim, "  Created:");
                    out.append(" ");
                    out.append(d.created.as_str());
                    out.append(" (");
                    out.append(d.created_ago.as_str());
                    out.append(" ago)\n");
                    push_painted(out, c, Paint::Dim, "  Modified:");
                    out.append(" ");
                    out.append(d.modified.as_str());
                    out.append(" (");
                    out.append(d.modified_ago.as_str());
                    out.append(" ago)\n");
                },
                None => {},
            }
        },
        None => {},
    }
    assert(out@ =~= start + file_details_text(c, opt_view(*path), match details { Some(d) => Some(*d), None => None }));
}

/// Append one line per dependency.
fn push_dependency_lines(out: &mut String, deps: &Vec<String>)
    ensures
        final(out)@ == old(out)@ + dependency_lines(deps@.map_values(|d: String| d@)),
{
    let ghost start = out@;
    let mut k: usize = 0;
    while k < deps.len()
        invariant
            k <= deps.len(),
            out@ == start + dependency_lines(deps@.take(k as int).map_values(|d: String| d@)),
        decreases deps.len() - k,
    {
        proof {
            let a = deps@.take(k as int).map_values(|d: String| d@);
            assert(deps@.take(k + 1).map_values(|d: String| d@) =~= a.push(deps@[k as int]@));
            assert(a.push(deps@[k as int]@).drop_last() =~= a);
        }
        out.append("        ");
        out.append(deps[k].as_str());
        out.append("\n");
        k = k + 1;
    }
    assert(deps@.take(deps@.len() as int) =~= deps@);
}

/// Append the lines of each environment of a package.
fn push_environment_lines(out: &mut String, p: &Package)
    ensures
        final(out)@ == old(out)@ + environment_lines(p.environments@),
{
    let ghost start = out@;
    let n = p.environments.len();
    let mut k: usize = 0;
    while k < n
        invariant
            n == p.environments@.len(),
            k <= n,
            out@ == start + environment_lines(p.environments@.take(k as int)),
        decreases n - k,
    {
        let name = p.environments.key_at(k);
        let cfg = p.environments.config_at(k);
        let ghost before = out@;
        out.append("    ");
        out.append(name.as_str());
        out.append(":\n");
        out.append("      Check: ");
        push_opt(out, &cfg.check);
        out.append("\n");
        out.append("      Install: ");
        out.append(cfg.install.as_str());
        out.append("\n");
        out.append("      Dependencies:\n");
        push_dependency_lines(out, &cfg.dependencies);
        proof {
            let m = p.environments@.take(k + 1);
            assert(m.drop_last() =~= p.environments@.take(k as int));
            assert(m.last() == p.environments@[k as int]);
        }
        k = k + 1;
    }
    assert(p.environments@.take(n as int) =~= p.environments@);
}

/// Append the package's name (when `with_name`), version, homepage and description lines.
#[verifier::spinoff_prover]
#[verifier::rlimit(30)]
fn push_package_summary(out: &mut String, with_name: bool, p: &Package)
    ensures
        final(out)@ == old(out)@ + package_summary_text(with_name, *p),
{
    let ghost start = out@;
    if with_name {
        out.append("  Name: ");
        out.append(p.name.as_str());
        out.append("\n");
    }
    let ghost mid = out@;
    assert(mid =~= start + (if with_name { "  Name: "@ + p.name@ + "\n"@ } else { Seq::empty() }));
    out.append("  Version: ");
    out.append(p.version.as_str());
    out.append("\n");
    out.append("  Homepage: ");
    push_opt(out, &p.homepage);
    out.append("\n");
    assert(out@ =~= mid + ("  Version: "@ + p.version@ + "\n"@ + "  Homepage: "@ + opt_text(opt_view(p.homepage)) + "\n"@));
    let ghost mid2 = out@;
    out.append("  Description: ");
    push_opt(out, &p.description);
    out.append("\n");
    assert(out@ =~= mid2 + ("  Description: "@ + opt_text(opt_view(p.description)) + "\n"@));
    assert(out@ =~= start + package_summary_text(with_name, *p));
}

/// Append the details of the package's structure.
fn push_package_details(out: &mut String, with_name: bool, package: &Option<Package>)
    ensures
        final(out)@ == old(out)@ + package_details_text(with_name, *package),
{
    let ghost start = out@;
    match package {
        Some(p) => {
            out.append("\nPackage structure details:\n");
            push_package_summary(out, with_name, p);
            out.append("  Environments:\n");
            push_environment_lines(out, p);
        },
        None => {},
    }
    assert(out@ =~= start + package_details_text(with_name, *package));
}

/// Append the headline of a valid package.
fn push_valid_headline(out: &mut String, c: bool, mark: bool, name: &str)
    ensures
        final(out)@ == old(out)@ + valid_headline(c, mark, name@),
{
    let ghost start = out@;
    if mark {
        push_painted(out, c, Paint::Green, "✓");
        out.append(" ");
    }
    out.append("Package '");
    push_painted(out, c, Paint::MagentaBold, name);
    out.append("' is valid\n");
    assert(out@ =~= start + valid_headline(c, mark, name@));
}

/// Append the counts of a result's issues.
fn push_statistics(out: &mut String, r: &ValidationResult)
    ensures
        final(out)@ == old(out)@ + statistics_text(*r),
{
    let ghost start = out@;
    out.append("\nValidation statistics:\n");
    out.append("  Total issues: ");
    let t = decimal_string(r.issues.len());
    out.append(t.as_str());
    out.append("\n");
    let ghost a = out@;
    out.append("  Errors: ");
    let errors = r.errors();
    proof {
        assert(errors@.len() == errors@.map_values(|x: &ValidationIssue| *x).len());
    }
    let e = decimal_string(errors.len());
    out.append(e.as_str());
    out.append("\n");
    let ghost b = out@;
    out.append("  Warnings: ");
    let warnings = r.warnings();
    proof {
        assert(warnings@.len() == warnings@.map_values(|x: &ValidationIssue| *x).len());
    }
    let w = decimal_string(warnings.len());
    out.append(w.as_str());
    out.append("\n");
    let ghost cc = out@;
    out.append("  Is valid: ");
    let v = bool_string(r.is_valid());
    out.append(v.as_str());
    out.append("\n");
    assert(a =~= start + ("\nValidation statistics:\n"@ + "  Total issues: "@ + decimal(r.issues@.len()) + "\n"@));
    assert(out@ =~= start + statistics_text(*r));
}

/// The report of a validation result as the package validator writes it,
/// with styles shown when `colored`. `details` is what the file system said
/// of the package file, used when `verbose`.
pub fn render_validator_report(result: &ValidationResult, colored: bool, verbose: bool, details: Option<&FileDetails>) -> (r: String)
    ensures
        r@ == validator_report(*result, colored, verbose, match details { Some(d) => Some(*d), None => None }),
{
    let mut out = String::new();
    if result.is_valid() {
        push_valid_headline(&mut out, colored, true, result.package_name.as_str());
        push_warnings_block(&mut out, colored, false, &result.issues);
    } else {
        push_failure_report(&mut out, colored, result);
    }
    if verbose {
        push_file_details(&mut out, false, &result.package_path, details);
        push_package_details(&mut out, false, &result.package);
    }
    out
}

impl ValidationResult {
    /// Append the error section of one category.
    pub fn format_category_errors(
        &self,
        output: &mut String,
        category: ValidationErrorCategory,
        use_colors: bool,
    )
        ensures
            final(output)@ == old(output)@ + category_section(use_colors, category, result_issues(*self)),
    {
        let header = category_header_string(category);
        push_category_section(output, use_colors, category, header.as_str(), &self.issues);
    }

    /// Append the verbose information: file and package details and counts.
    pub fn add_verbose_information(&self, output: &mut String, use_colors: bool, details: Option<&FileDetails>)
        ensures
            final(output)@ == old(output)@ + verbose_information(*self, use_colors, match details { Some(d) => Some(*d), None => None }),
    {
        let ghost start = output@;
        output.append("\n--- Verbose Information ---\n");
        push_file_details(output, use_colors, &self.package_path, details);
        push_package_details(output, true, &self.package);
        push_statistics(output, self);
        assert(output@ =~= start + verbose_information(*self, use_colors, match details { Some(d) => Some(*d), None => None }));
    }

    /// Append the report of a failed result, with the verbose information when `verbose`.
    pub fn format_invalid_result(&self, output: &mut String, use_colors: bool, verbose: bool, details: Option<&FileDetails>)
        ensures
            final(output)@ == old(output)@ + failure_report(use_colors, self.package_name@, result_issues(*self), opt_view(self.package_path))
                + if verbose { verbose_information(*self, use_colors, match details { Some(d) => Some(*d), None => None }) } else { Seq::empty() },
    {
        let ghost start = output@;
        push_failure_report(output, use_colors, self);
        if verbose {
            self.add_verbose_information(output, use_colors, details);
        }
        assert(output@ =~= start + failure_report(use_colors, self.package_name@, result_issues(*self), opt_view(self.package_path))
            + if verbose { verbose_information(*self, use_colors, match details { Some(d) => Some(*d), None => None }) } else { Seq::empty() });
    }

    /// The report of this result, with styles shown when `colored`.
    pub fn render_report(&self, colored: bool, verbose: bool, details: Option<&FileDetails>) -> (r: String)
        ensures
            r@ == result_report(*self, colored, verbose, match details { Some(d) => Some(*d), None => None }),
    {
        let mut out = String::new();
        if self.is_valid() {
            push_valid_headline(&mut out, colored, false, self.package_name.as_str());
            push_warnings_block(&mut out, colored, true, &self.issues);
        } else {
            self.format_invalid_result(&mut out, colored, verbose, details);
        }
        out
    }

    /// The report of this result for display, with the display settings of
    /// `progress_manager`: styled when it uses colors and the terminal shows
    /// them, with the verbose information when it is verbose.
    pub fn format_validation_result(&self, progress_manager: ProgressManager, details: Option<&FileDetails>) -> (r: String)
        ensures
            r@ == result_report(*self, false, progress_manager.verbose(), match details { Some(d) => Some(*d), None => None })
                || (progress_manager.use_colors()
                    && r@ == result_report(*self, true, progress_manager.verbose(), match details { Some(d) => Some(*d), None => None })),
    {
        let colored = progress_manager.use_colors() && crate::styling::terminal_styles_enabled();
        self.render_report(colored, progress_manager.verbose(), details)
    }
}

} // verus!
