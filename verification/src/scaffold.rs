//! Scaffolding of a new mod project: which directories and files a new
//! project gets, and what the files hold.
//!
//! The steps are only laid out here; whoever drives them creates the
//! directories, writes the files and sets up the repository.

use vstd::prelude::*;
use vstd::string::*;
use crate::path::{destination_of, destination_path};
use crate::text::{substitute, substituted, text_view};

verus! {

/// One step in setting up a new project.
#[derive(Debug, PartialEq, Eq)]
pub enum ScaffoldStep {
    CreateDirectory { path: String },
    WriteFile { path: String, contents: String },
    /// Set up a version-control repository in the directory.
    InitRepository { path: String },
}

/// What a `ScaffoldStep` stands for.
pub enum StepModel {
    CreateDirectory { path: Seq<char> },
    WriteFile { path: Seq<char>, contents: Seq<char> },
    InitRepository { path: Seq<char> },
}

impl View for ScaffoldStep {
    type V = StepModel;

    open spec fn view(&self) -> StepModel {
        match self {
            ScaffoldStep::CreateDirectory { path } => StepModel::CreateDirectory { path: path@ },
            ScaffoldStep::WriteFile { path, contents } => StepModel::WriteFile {
                path: path@,
                contents: contents@,
            },
            ScaffoldStep::InitRepository { path } => StepModel::InitRepository { path: path@ },
        }
    }
}

/// The views of a sequence of steps.
pub open spec fn step_views(steps: Seq<ScaffoldStep>) -> Seq<StepModel> {
    Seq::new(steps.len(), |i: int| steps[i]@)
}

/// The manifest of a new project: the template with the project's name put
/// in for the name, the title and the description, and a reminder put in for
/// the author. The placeholders are filled one after the other, in that
/// order.
pub open spec fn info_json_of(template: Seq<char>, mod_name: Seq<char>) -> Seq<char> {
    let named = substituted(template, "mod_name"@, mod_name);
    let titled = substituted(named, "mod_title"@, mod_name);
    let authored = substituted(titled, "mod_author"@, "TODO"@);
    substituted(authored, "mod_desc"@, mod_name)
}

/// The changelog of a new project: the template with the date put in.
pub open spec fn changelog_of(template: Seq<char>, date: Seq<char>) -> Seq<char> {
    substituted(template, "blank_date"@, date)
}

/// What the prototype script of a new project holds.
pub open spec fn data_script() -> Seq<char> {
    "-- Here goes prototype data"@
}

/// What the runtime script of a new project holds.
pub open spec fn control_script() -> Seq<char> {
    "-- Here goes all runtime game scripts. For more info, consult https://lua-api.factorio.com"@
}

/// The steps that set up the project `mod_name`, in their order.
pub open spec fn scaffold_of(
    mod_name: Seq<char>,
    info_json_template: Seq<char>,
    changelog_template: Seq<char>,
    gitignore_content: Seq<char>,
    date: Seq<char>,
    separator: char,
) -> Seq<StepModel> {
    seq![
        StepModel::CreateDirectory { path: mod_name },
        StepModel::CreateDirectory { path: destination_of(mod_name, "prototypes"@, separator) },
        StepModel::WriteFile {
            path: destination_of(mod_name, "info.json"@, separator),
            contents: info_json_of(info_json_template, mod_name),
        },
        StepModel::WriteFile {
            path: destination_of(mod_name, "changelog.txt"@, separator),
            contents: changelog_of(changelog_template, date),
        },
        StepModel::WriteFile {
            path: destination_of(mod_name, "data.lua"@, separator),
            contents: data_script(),
        },
        StepModel::WriteFile {
            path: destination_of(mod_name, "control.lua"@, separator),
            contents: control_script(),
        },
        StepModel::InitRepository { path: mod_name },
        StepModel::WriteFile {
            path: destination_of(mod_name, ".gitignore"@, separator),
            contents: gitignore_content,
        },
    ]
}

/// The pattern of the date in a changelog: day, month and year, with dots
/// between them.
pub open spec fn date_pattern() -> Seq<char> {
    seq!['%', 'd', '.', '%', 'm', '.', '%', 'Y']
}

/// The text that `chrono` writes for the instant `seconds` after the epoch,
/// taken in UTC, under the format `pattern`; nothing where it cannot hold
/// the instant or cannot format it so.
pub uninterp spec fn formatted_instant(seconds: int, pattern: Seq<char>) -> Option<Seq<char>>;

/// Makes the instant with `chrono::DateTime::from_timestamp`, formats it
/// with `chrono::DateTime::format`, and collects the text with
/// `DelayedFormat::write_to`. The contract names the outcome: the text that
/// was written, or nothing where the instant is out of range or the writing
/// failed.
#[verifier::external_body]
fn format_instant(seconds: i64, pattern: &str) -> (text: Option<String>)
    ensures
        text_view(text) == formatted_instant(seconds as int, pattern@),
{
    let instant = chrono::DateTime::from_timestamp(seconds, 0)?;
    let mut text = String::new();
    match instant.format(pattern).write_to(&mut text) {
        Ok(()) => Some(text),
        Err(_) => None,
    }
}

/// The date that the changelog of a project created at the instant `seconds`
/// after the epoch bears, if the instant has one.
pub fn changelog_date(seconds: i64) -> (date: Option<String>)
    ensures
        text_view(date) == formatted_instant(seconds as int, date_pattern()),
{
    proof {
        reveal_strlit("%d.%m.%Y");
        assert("%d.%m.%Y"@ =~= date_pattern());
    }
    format_instant(seconds, "%d.%m.%Y")
}

/// Fills the manifest template of a new project.
pub fn render_info_json(template: &str, mod_name: &str) -> (contents: String)
    ensures
        contents@ == info_json_of(template@, mod_name@),
{
    let named = substitute(template, "mod_name", mod_name);
    let titled = substitute(named.as_str(), "mod_title", mod_name);
    let authored = substitute(titled.as_str(), "mod_author", "TODO");
    substitute(authored.as_str(), "mod_desc", mod_name)
}

/// Fills the changelog template of a new project with the date of its
/// creation.
pub fn render_changelog(template: &str, date: &str) -> (contents: String)
    ensures
        contents@ == changelog_of(template@, date@),
{
    substitute(template, "blank_date", date)
}

/// Lays out a new mod project named `mod_name`, to be created in a directory
/// of that name: the project directory and its prototypes directory, the
/// manifest and the changelog filled from their templates, the two scripts,
/// the repository, and the ignore file.
pub fn new_mod(
    mod_name: &str,
    info_json_template: &str,
    changelog_template: &str,
    gitignore_content: &str,
    date: &str,
    separator: char,
) -> (steps: Vec<ScaffoldStep>)
    ensures
        step_views(steps@) == scaffold_of(
            mod_name@,
            info_json_template@,
            changelog_template@,
            gitignore_content@,
            date@,
            separator,
        ),
{
    let mut steps: Vec<ScaffoldStep> = Vec::new();
    steps.push(ScaffoldStep::CreateDirectory { path: mod_name.to_owned() });
    steps.push(
        ScaffoldStep::CreateDirectory { path: destination_path(mod_name, "prototypes", separator) },
    );
    steps.push(
        ScaffoldStep::WriteFile {
            path: destination_path(mod_name, "info.json", separator),
            contents: render_info_json(info_json_template, mod_name),
        },
    );
    steps.push(
        ScaffoldStep::WriteFile {
            path: destination_path(mod_name, "changelog.txt", separator),
            contents: render_changelog(changelog_template, date),
        },
    );
    steps.push(
        ScaffoldStep::WriteFile {
            path: destination_path(mod_name, "data.lua", separator),
            contents: "-- Here goes prototype data".to_owned(),
        },
    );
    steps.push(
        ScaffoldStep::WriteFile {
            path: destination_path(mod_name, "control.lua", separator),
            contents: "-- Here goes all runtime game scripts. For more info, consult https://lua-api.factorio.com".to_owned(),
        },
    );
    steps.push(ScaffoldStep::InitRepository { path: mod_name.to_owned() });
    steps.push(
        ScaffoldStep::WriteFile {
            path: destination_path(mod_name, ".gitignore", separator),
            contents: gitignore_content.to_owned(),
        },
    );
    assert(step_views(steps@) =~= scaffold_of(
        mod_name@,
        info_json_template@,
        changelog_template@,
        gitignore_content@,
        date@,
        separator,
    ));
    steps
}

} // verus!
