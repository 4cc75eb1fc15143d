//! The commands of the command line, and what each of them does with the
//! record.

use crate::api::{
    views, Certification, CertificationView, DocumentShape, DocumentShapeView, Header,
    HeaderView, HistoryEntry, HistoryEntryView, Project, ProjectView, Skill, SkillView, Summary,
    SummaryView,
};
use crate::command::{ArgSpec, ArgSpecView, CommandSpec, CommandSpecView};
use crate::errors::{Error, ErrorView};
use crate::generate::{render, rendering};
use crate::matches::{Matches, MatchesView};
use crate::outcome::{Action, ActionView, Notice, NoticeView, Outcome, OutcomeView};
use crate::store::{
    ContactPatch, ContactPatchView, Entry, EntryView, FieldValue, FieldValueView, Mutation,
    MutationView,
};
use crate::text::lemma_texts_differ;
use vstd::prelude::*;

verus! {

/// The commands below the top of the command line.
pub struct Subcommands;

impl Subcommands {
    /// The command `list`: it has the one sub-command `config`, which takes
    /// nothing.
    pub open spec fn list_view() -> CommandSpecView {
        CommandSpecView::group("list"@, seq![CommandSpecView::plain("config"@, Seq::empty())])
    }

    /// The command `set`: it has one sub-command for each section of the
    /// record, each with the arguments of that section.
    pub open spec fn set_view() -> CommandSpecView {
        CommandSpecView::group(
            "set"@,
            seq![
                CommandSpecView::plain("filename"@, Arguments::filename_args()),
                CommandSpecView::plain("title"@, Arguments::title_args()),
                CommandSpecView::plain("header"@, Arguments::header_args()),
                CommandSpecView::plain("summary"@, Arguments::summary_args()),
                CommandSpecView::plain("employment"@, Arguments::employment_history_args()),
                CommandSpecView::plain("projects"@, Arguments::projects_args()),
                CommandSpecView::plain("skills"@, Arguments::skillset_args()),
                CommandSpecView::plain("contact"@, Arguments::contact_details_args()),
                CommandSpecView::plain("certs"@, Arguments::certifications_args()),
            ],
        )
    }

    /// The command `write`, which takes nothing.
    pub open spec fn write_view() -> CommandSpecView {
        CommandSpecView::plain("write"@, Seq::empty())
    }

    /// The command that shows the record.
    pub fn list() -> (r: CommandSpec)
        ensures
            r@ == Subcommands::list_view(),
    {
        let r = CommandSpec::new("list").subcommand(CommandSpec::new("config"));
        assert(r@.subcommands =~= Subcommands::list_view().subcommands);
        r
    }

    /// The command that changes the record, one section at a time.
    pub fn set() -> (r: CommandSpec)
        ensures
            r@ == Subcommands::set_view(),
    {
        let r = CommandSpec::new("set")
            .subcommand(CommandSpec::new("filename").args(Arguments::filename()))
            .subcommand(CommandSpec::new("title").args(Arguments::title()))
            .subcommand(CommandSpec::new("header").args(Arguments::header()))
            .subcommand(CommandSpec::new("summary").args(Arguments::summary()))
            .subcommand(CommandSpec::new("employment").args(Arguments::employment_history()))
            .subcommand(CommandSpec::new("projects").args(Arguments::projects()))
            .subcommand(CommandSpec::new("skills").args(Arguments::skillset()))
            .subcommand(CommandSpec::new("contact").args(Arguments::contact_details()))
            .subcommand(CommandSpec::new("certs").args(Arguments::certifications()));
        assert(r@.subcommands =~= Subcommands::set_view().subcommands);
        r
    }

    /// The command that renders the record and writes the page.
    pub fn write() -> (r: CommandSpec)
        ensures
            r@ == Subcommands::write_view(),
    {
        CommandSpec::new("write")
    }
}

/// The top of the command line.
pub struct Cli;

impl Cli {
    /// The whole command line: the program with its three commands `list`,
    /// `set` and `write`, showing help where it is given nothing.
    pub open spec fn command_view() -> CommandSpecView {
        CommandSpecView {
            name: "PortForm"@,
            version: Some("1.0"@),
            author: Some("Joshua Newell Diehl <jdiehl2236@gmail.com>"@),
            about: Some("PDF Resume Builder"@),
            arg_required_else_help: true,
            args: Seq::empty(),
            subcommands: seq![
                Subcommands::list_view(),
                Subcommands::set_view(),
                Subcommands::write_view(),
            ],
        }
    }

    /// The whole command line.
    pub fn command() -> (r: CommandSpec)
        ensures
            r@ == Cli::command_view(),
    {
        let r = CommandSpec::new("PortForm")
            .version("1.0")
            .author("Joshua Newell Diehl <jdiehl2236@gmail.com>")
            .about("PDF Resume Builder")
            .subcommand(Subcommands::list())
            .subcommand(Subcommands::set())
            .subcommand(Subcommands::write())
            .arg_required_else_help(true);
        assert(r@.subcommands =~= Cli::command_view().subcommands);
        r
    }
}

/// The arguments of the commands, and how their values are read.
pub struct Arguments;

impl Arguments {
    /// The one argument of `set filename`: the file name, required.
    pub open spec fn filename_args() -> Seq<ArgSpecView> {
        seq![ArgSpecView::positional("filename"@, true)]
    }

    /// The one argument of `set title`: the title, required.
    pub open spec fn title_args() -> Seq<ArgSpecView> {
        seq![ArgSpecView::positional("title"@, true)]
    }

    /// The arguments of `set header`: the name and the profession, both
    /// required.
    pub open spec fn header_args() -> Seq<ArgSpecView> {
        seq![
            ArgSpecView::short_option("name"@, 'n', true),
            ArgSpecView::short_option("profession"@, 'p', true),
        ]
    }

    /// The one argument of `set summary`: the summary, required.
    pub open spec fn summary_args() -> Seq<ArgSpecView> {
        seq![ArgSpecView::positional("summary"@, true)]
    }

    /// The arguments of `set employment`: all but the two dates are
    /// required.
    pub open spec fn employment_history_args() -> Seq<ArgSpecView> {
        seq![
            ArgSpecView::option("position"@, true),
            ArgSpecView::option("location"@, true),
            ArgSpecView::option("start"@, false),
            ArgSpecView::option("end"@, false),
            ArgSpecView::option("description"@, true),
        ]
    }

    /// The arguments of `set projects`: the deployment may be left out.
    pub open spec fn projects_args() -> Seq<ArgSpecView> {
        seq![
            ArgSpecView::option("name"@, true),
            ArgSpecView::option("description"@, true),
            ArgSpecView::option("deployment"@, false),
        ]
    }

    /// The one argument of `set skills`: the name of the skill, required.
    pub open spec fn skillset_args() -> Seq<ArgSpecView> {
        seq![ArgSpecView::positional("name"@, true)]
    }

    /// The arguments of `set contact`: each may be left out.
    pub open spec fn contact_details_args() -> Seq<ArgSpecView> {
        seq![
            ArgSpecView::option("email"@, false),
            ArgSpecView::option("website"@, false),
            ArgSpecView::option("phone"@, false),
            ArgSpecView::option("address"@, false),
        ]
    }

    /// The arguments of `set certs`: the date of issue and the name, both
    /// required.
    pub open spec fn certifications_args() -> Seq<ArgSpecView> {
        seq![ArgSpecView::option("issued"@, true), ArgSpecView::option("name"@, true)]
    }

    /// The arguments of `set filename`.
    pub fn filename() -> (r: [ArgSpec; 1])
        ensures
            views(r@) == Arguments::filename_args(),
    {
        let r = [ArgSpec::new("filename").required(true)];
        assert(views(r@) =~= Arguments::filename_args());
        r
    }

    /// The arguments of `set title`.
    pub fn title() -> (r: [ArgSpec; 1])
        ensures
            views(r@) == Arguments::title_args(),
    {
        let r = [ArgSpec::new("title").required(true)];
        assert(views(r@) =~= Arguments::title_args());
        r
    }

    /// The arguments of `set header`.
    pub fn header() -> (r: [ArgSpec; 2])
        ensures
            views(r@) == Arguments::header_args(),
    {
        let r = [
            ArgSpec::new("name").short('n').long("name").required(true),
            ArgSpec::new("profession").short('p').long("profession").required(true),
        ];
        assert(views(r@) =~= Arguments::header_args());
        r
    }

    /// The arguments of `set summary`.
    pub fn summary() -> (r: [ArgSpec; 1])
        ensures
            views(r@) == Arguments::summary_args(),
    {
        let r = [ArgSpec::new("summary").required(true)];
        assert(views(r@) =~= Arguments::summary_args());
        r
    }

    /// The arguments of `set employment`.
    pub fn employment_history() -> (r: [ArgSpec; 5])
        ensures
            views(r@) == Arguments::employment_history_args(),
    {
        let r = [
            ArgSpec::new("position").long("position").required(true),
            ArgSpec::new("location").long("location").required(true),
            ArgSpec::new("start").long("start").required(false),
            ArgSpec::new("end").long("end").required(false),
            ArgSpec::new("description").long("description").required(true),
        ];
        assert(views(r@) =~= Arguments::employment_history_args());
        r
    }

    /// The arguments of `set projects`.
    pub fn projects() -> (r: [ArgSpec; 3])
        ensures
            views(r@) == Arguments::projects_args(),
    {
        let r = [
            ArgSpec::new("name").long("name").required(true),
            ArgSpec::new("description").long("description").required(true),
            ArgSpec::new("deployment").long("deployment").required(false),
        ];
        assert(views(r@) =~= Arguments::projects_args());
        r
    }

    /// The arguments of `set skills`.
    pub fn skillset() -> (r: [ArgSpec; 1])
        ensures
            views(r@) == Arguments::skillset_args(),
    {
        let r = [ArgSpec::new("name").required(true)];
        assert(views(r@) =~= Arguments::skillset_args());
        r
    }

    /// The arguments of `set contact`.
    pub fn contact_details() -> (r: [ArgSpec; 4])
        ensures
            views(r@) == Arguments::contact_details_args(),
    {
        let r = [
            ArgSpec::new("email").long("email").required(false),
            ArgSpec::new("website").long("website").required(false),
            ArgSpec::new("phone").long("phone").required(false),
            ArgSpec::new("address").long("address").required(false),
        ];
        assert(views(r@) =~= Arguments::contact_details_args());
        r
    }

    /// The arguments of `set certs`.
    pub fn certifications() -> (r: [ArgSpec; 2])
        ensures
            views(r@) == Arguments::certifications_args(),
    {
        let r = [
            ArgSpec::new("issued").long("issued").required(true),
            ArgSpec::new("name").long("name").required(true),
        ];
        assert(views(r@) =~= Arguments::certifications_args());
        r
    }

    /// The value that was given for `item`, or the empty text.
    pub fn get(args: &Matches, item: &str) -> (r: String)
        ensures
            r@ == args@.text_of(item@),
    {
        match args.get_one(item) {
            Some(value) => value.clone(),
            None => String::new(),
        }
    }

    /// The value that was given for `item`, if any.
    pub fn get_opt(args: &Matches, item: &str) -> (r: Option<String>)
        ensures
            match r {
                Some(value) => args@.value_of(item@) == Some(value@),
                None => args@.value_of(item@) is None,
            },
    {
        match args.get_one(item) {
            Some(value) => Some(value.clone()),
            None => None,
        }
    }

    /// The value that was given for `item`, or the empty text.
    pub fn get_or(args: &Matches, item: &str) -> (r: String)
        ensures
            r@ == args@.text_of(item@),
    {
        match args.get_one(item) {
            Some(value) => value.clone(),
            None => String::new(),
        }
    }

    /// The change that `set` makes for `section` with the arguments
    /// `args`; none where there is no such section.
    pub fn mutation(section: &str, args: &Matches) -> (r: Option<Mutation>)
        ensures
            match r {
                Some(mutation) => mutation_of(section@, args@) == Some(mutation@),
                None => mutation_of(section@, args@) is None,
            },
    {
        if *section == *"filename" {
            let name = Arguments::get_opt(args, "filename");
            Some(Mutation::Overwrite(FieldValue::Filename(name)))
        } else if *section == *"title" {
            let title = Arguments::get_opt(args, "title");
            Some(Mutation::Overwrite(FieldValue::Title(title)))
        } else if *section == *"header" {
            let name = Arguments::get(args, "name");
            let profession = Arguments::get(args, "profession");
            Some(Mutation::Overwrite(FieldValue::Header(Header { name, profession })))
        } else if *section == *"summary" {
            let body = Arguments::get(args, "summary");
            Some(Mutation::Overwrite(FieldValue::Summary(Summary { body })))
        } else if *section == *"employment" {
            let position = Arguments::get(args, "position");
            let location = Arguments::get(args, "location");
            let start = Arguments::get_or(args, "start");
            let end = Arguments::get_or(args, "end");
            let description = Arguments::get(args, "description");
            let entry = HistoryEntry {
                position,
                location,
                dates_employed: (start, end),
                description,
            };
            Some(Mutation::Append(Entry::Employment(entry)))
        } else if *section == *"projects" {
            let name = Arguments::get(args, "name");
            let description = Arguments::get(args, "description");
            let deployment = Arguments::get(args, "deployment");
            Some(Mutation::Append(Entry::Project(Project { name, description, deployment })))
        } else if *section == *"skills" {
            let name = Arguments::get(args, "name");
            Some(Mutation::Append(Entry::Skill(Skill { name })))
        } else if *section == *"contact" {
            let email = Arguments::get_opt(args, "email");
            let website = Arguments::get_opt(args, "website");
            let phone = Arguments::get_opt(args, "phone");
            let address = Arguments::get_opt(args, "address");
            Some(Mutation::Contact(ContactPatch { email, website, phone, address }))
        } else if *section == *"certs" {
            let date_issued = Arguments::get(args, "issued");
            let name = Arguments::get(args, "name");
            Some(Mutation::Append(Entry::Certification(Certification { date_issued, name })))
        } else {
            None
        }
    }
}

/// The change that `set` makes for `section` with the arguments `args`.
/// The file name and the title take the value that was given or become
/// unset. The header and the summary are overwritten; an entry of the
/// employment history, of the projects, of the skills or of the
/// certifications is appended; in both, an argument that was not given
/// counts as the empty text. The contact details that were given are
/// replaced. Any other section makes no change.
pub open spec fn mutation_of(section: Seq<char>, args: MatchesView) -> Option<MutationView> {
    if section == "filename"@ {
        Some(MutationView::Overwrite(FieldValueView::Filename(args.value_of("filename"@))))
    } else if section == "title"@ {
        Some(MutationView::Overwrite(FieldValueView::Title(args.value_of("title"@))))
    } else if section == "header"@ {
        Some(
            MutationView::Overwrite(
                FieldValueView::Header(
                    HeaderView {
                        name: args.text_of("name"@),
                        profession: args.text_of("profession"@),
                    },
                ),
            ),
        )
    } else if section == "summary"@ {
        Some(
            MutationView::Overwrite(
                FieldValueView::Summary(SummaryView { body: args.text_of("summary"@) }),
            ),
        )
    } else if section == "employment"@ {
        Some(
            MutationView::Append(
                EntryView::Employment(
                    HistoryEntryView {
                        position: args.text_of("position"@),
                        location: args.text_of("location"@),
                        dates_employed: (args.text_of("start"@), args.text_of("end"@)),
                        description: args.text_of("description"@),
                    },
                ),
            ),
        )
    } else if section == "projects"@ {
        Some(
            MutationView::Append(
                EntryView::Project(
                    ProjectView {
                        name: args.text_of("name"@),
                        description: args.text_of("description"@),
                        deployment: args.text_of("deployment"@),
                    },
                ),
            ),
        )
    } else if section == "skills"@ {
        Some(MutationView::Append(EntryView::Skill(SkillView { name: args.text_of("name"@) })))
    } else if section == "contact"@ {
        Some(
            MutationView::Contact(
                ContactPatchView {
                    email: args.value_of("email"@),
                    website: args.value_of("website"@),
                    phone: args.value_of("phone"@),
                    address: args.value_of("address"@),
                },
            ),
        )
    } else if section == "certs"@ {
        Some(
            MutationView::Append(
                EntryView::Certification(
                    CertificationView {
                        date_issued: args.text_of("issued"@),
                        name: args.text_of("name"@),
                    },
                ),
            ),
        )
    } else {
        None
    }
}

/// The sections of `set` are told apart: each name stands for the change to
/// its own section, and none is taken for another.
pub proof fn lemma_sections_are_told_apart(args: MatchesView)
    ensures
        mutation_of("filename"@, args) matches Some(
            MutationView::Overwrite(FieldValueView::Filename(_)),
        ),
        mutation_of("title"@, args) matches Some(
            MutationView::Overwrite(FieldValueView::Title(_)),
        ),
        mutation_of("header"@, args) matches Some(
            MutationView::Overwrite(FieldValueView::Header(_)),
        ),
        mutation_of("summary"@, args) matches Some(
            MutationView::Overwrite(FieldValueView::Summary(_)),
        ),
        mutation_of("employment"@, args) matches Some(
            MutationView::Append(EntryView::Employment(_)),
        ),
        mutation_of("projects"@, args) matches Some(MutationView::Append(EntryView::Project(_))),
        mutation_of("skills"@, args) matches Some(MutationView::Append(EntryView::Skill(_))),
        mutation_of("contact"@, args) matches Some(MutationView::Contact(_)),
        mutation_of("certs"@, args) matches Some(
            MutationView::Append(EntryView::Certification(_)),
        ),
{
    reveal_strlit("filename");
    reveal_strlit("title");
    reveal_strlit("header");
    reveal_strlit("summary");
    reveal_strlit("employment");
    reveal_strlit("projects");
    reveal_strlit("skills");
    reveal_strlit("contact");
    reveal_strlit("certs");
    lemma_texts_differ("title"@, "filename"@, 0);
    lemma_texts_differ("header"@, "filename"@, 0);
    lemma_texts_differ("header"@, "title"@, 0);
    lemma_texts_differ("summary"@, "filename"@, 0);
    lemma_texts_differ("summary"@, "title"@, 0);
    lemma_texts_differ("summary"@, "header"@, 0);
    lemma_texts_differ("employment"@, "filename"@, 0);
    lemma_texts_differ("employment"@, "title"@, 0);
    lemma_texts_differ("employment"@, "header"@, 0);
    lemma_texts_differ("employment"@, "summary"@, 0);
    lemma_texts_differ("projects"@, "filename"@, 0);
    lemma_texts_differ("projects"@, "title"@, 0);
    lemma_texts_differ("projects"@, "header"@, 0);
    lemma_texts_differ("projects"@, "summary"@, 0);
    lemma_texts_differ("projects"@, "employment"@, 0);
    lemma_texts_differ("skills"@, "filename"@, 0);
    lemma_texts_differ("skills"@, "title"@, 0);
    lemma_texts_differ("skills"@, "header"@, 0);
    lemma_texts_differ("skills"@, "summary"@, 1);
    lemma_texts_differ("skills"@, "employment"@, 0);
    lemma_texts_differ("skills"@, "projects"@, 0);
    lemma_texts_differ("contact"@, "filename"@, 0);
    lemma_texts_differ("contact"@, "title"@, 0);
    lemma_texts_differ("contact"@, "header"@, 0);
    lemma_texts_differ("contact"@, "summary"@, 0);
    lemma_texts_differ("contact"@, "employment"@, 0);
    lemma_texts_differ("contact"@, "projects"@, 0);
    lemma_texts_differ("contact"@, "skills"@, 0);
    lemma_texts_differ("certs"@, "filename"@, 0);
    lemma_texts_differ("certs"@, "title"@, 0);
    lemma_texts_differ("certs"@, "header"@, 0);
    lemma_texts_differ("certs"@, "summary"@, 0);
    lemma_texts_differ("certs"@, "employment"@, 0);
    lemma_texts_differ("certs"@, "projects"@, 0);
    lemma_texts_differ("certs"@, "skills"@, 0);
    lemma_texts_differ("certs"@, "contact"@, 1);
}

/// The view of the record as it was loaded, or of the failure to load it.
pub open spec fn loaded_view(config: Result<DocumentShape, Error>) -> Result<
    DocumentShapeView,
    ErrorView,
> {
    match config {
        Ok(shape) => Ok(shape@),
        Err(e) => Err(e@),
    }
}

/// The view of what a handler returned.
pub open spec fn handled_view(r: Result<Outcome, Error>) -> Result<OutcomeView, ErrorView> {
    match r {
        Ok(outcome) => Ok(outcome@),
        Err(e) => Err(e@),
    }
}

/// What `list` comes to. Asked for the configuration, it shows the record,
/// or fails as loading the record failed. Asked for anything else, or for
/// nothing, it says so and does nothing, whether or not the record could
/// be loaded.
pub open spec fn list_outcome(matches: MatchesView, config: Result<DocumentShapeView, ErrorView>)
    -> Result<OutcomeView, ErrorView> {
    if matches.subcommand_name() == Some("config"@) {
        match config {
            Ok(shape) => Ok(OutcomeView { notice: None, action: ActionView::Show(shape) }),
            Err(e) => Err(e),
        }
    } else {
        Ok(OutcomeView { notice: Some(NoticeView::UnknownListing), action: ActionView::Nothing })
    }
}

/// What `set` comes to. It fails as loading the record failed. Else the
/// record is stored: changed as the section says, or unchanged and with a
/// notice where the section is not known or none was given.
pub open spec fn set_outcome(matches: MatchesView, config: Result<DocumentShapeView, ErrorView>)
    -> Result<OutcomeView, ErrorView> {
    match config {
        Err(e) => Err(e),
        Ok(shape) => match matches.subcommand {
            Some(sub) => match mutation_of(sub.0, *sub.1) {
                Some(mutation) => Ok(
                    OutcomeView { notice: None, action: ActionView::Store(shape.apply(mutation)) },
                ),
                None => Ok(
                    OutcomeView {
                        notice: Some(NoticeView::UnrecognizedSection(sub.0)),
                        action: ActionView::Store(shape),
                    },
                ),
            },
            None => Ok(
                OutcomeView {
                    notice: Some(NoticeView::NoSection),
                    action: ActionView::Store(shape),
                },
            ),
        },
    }
}

/// What `write` comes to. It fails as loading the record failed, or as
/// resolving it fails. Else the page of the record is to be rendered.
pub open spec fn write_outcome(config: Result<DocumentShapeView, ErrorView>) -> Result<
    OutcomeView,
    ErrorView,
> {
    match config {
        Err(e) => Err(e),
        Ok(shape) => match rendering(shape) {
            Ok(page) => Ok(OutcomeView { notice: None, action: ActionView::Render(page) }),
            Err(e) => Err(e),
        },
    }
}

/// What a command line comes to: what its command comes to, or a notice
/// where the command is not known or none was given.
pub open spec fn input_outcome(matches: MatchesView, config: Result<DocumentShapeView, ErrorView>)
    -> Result<OutcomeView, ErrorView> {
    match matches.subcommand {
        Some(sub) => if sub.0 == "list"@ {
            list_outcome(*sub.1, config)
        } else if sub.0 == "set"@ {
            set_outcome(*sub.1, config)
        } else if sub.0 == "write"@ {
            write_outcome(config)
        } else {
            Ok(
                OutcomeView {
                    notice: Some(NoticeView::UnrecognizedCommand(sub.0)),
                    action: ActionView::Nothing,
                },
            )
        },
        None => Ok(
            OutcomeView { notice: Some(NoticeView::NoCommand), action: ActionView::Nothing },
        ),
    }
}

/// Each command has its own kind of action. The record is stored by `set`
/// alone, and `set` stores it whenever it was loaded. A page is rendered by
/// `write` alone, and the record is shown by `list` alone.
pub proof fn lemma_each_command_has_its_action(
    matches: MatchesView,
    config: Result<DocumentShapeView, ErrorView>,
)
    ensures
        match input_outcome(matches, config) {
            Ok(outcome) => match outcome.action {
                ActionView::Store(_) => matches.subcommand_name() == Some("set"@),
                ActionView::Render(_) => matches.subcommand_name() == Some("write"@),
                ActionView::Show(_) => matches.subcommand_name() == Some("list"@),
                ActionView::Nothing => outcome.notice is Some,
            },
            Err(e) => config == Err::<DocumentShapeView, ErrorView>(e) || (
            matches.subcommand_name() == Some("write"@) && e is Resolution),
        },
        config is Ok ==> (set_outcome(matches, config) matches Ok(outcome) && outcome.action
            is Store),
{
    reveal_strlit("list");
    reveal_strlit("set");
    reveal_strlit("write");
    lemma_texts_differ("set"@, "list"@, 0);
    lemma_texts_differ("write"@, "list"@, 0);
    lemma_texts_differ("write"@, "set"@, 0);
}

/// Whether a command line reads the record: `list config` does, `set` does
/// whatever it is given, and `write` does. Nothing else touches the record.
pub open spec fn reads_record(matches: MatchesView) -> bool {
    match matches.subcommand {
        Some(sub) => if sub.0 == "list"@ {
            sub.1.subcommand_name() == Some("config"@)
        } else {
            sub.0 == "set"@ || sub.0 == "write"@
        },
        None => false,
    }
}

/// A command line that does not read the record comes to the same,
/// whatever the record is and whether or not it can be loaded.
pub proof fn lemma_record_is_read_only_where_needed(
    matches: MatchesView,
    one: Result<DocumentShapeView, ErrorView>,
    other: Result<DocumentShapeView, ErrorView>,
)
    requires
        !reads_record(matches),
    ensures
        input_outcome(matches, one) == input_outcome(matches, other),
{
}

/// Decides what each command does. Where the command line reads the
/// record, the record is loaded before a handler is called and handed to
/// it, or the failure to load it; what the handler returns is carried out
/// afterwards.
pub trait Handler<M, E> {
    /// Handles a whole command line.
    fn handle_input(matches: &M, config: Result<DocumentShape, E>) -> Result<Outcome, E>;

    /// Handles what was given to `list`.
    fn handle_list_command(matches: &M, config: Result<DocumentShape, E>) -> Result<Outcome, E>;

    /// Handles what was given to `set`.
    fn handle_set_command(matches: &M, config: Result<DocumentShape, E>) -> Result<Outcome, E>;

    /// Handles `write`.
    fn handle_write_command(config: Result<DocumentShape, E>) -> Result<Outcome, E>;
}

/// The handler of this command line.
pub struct CLParser;

impl CLParser {
    /// Whether the command line reads the record, so that the record has to
    /// be loaded before the command line is handled.
    pub fn reads_record(matches: &Matches) -> (r: bool)
        ensures
            r == reads_record(matches@),
    {
        match matches.subcommand() {
            Some((name, given)) => {
                if *name == *"list" {
                    match given.subcommand() {
                        Some((target, _)) => *target == *"config",
                        None => false,
                    }
                } else {
                    *name == *"set" || *name == *"write"
                }
            },
            None => false,
        }
    }
}

impl Handler<Matches, Error> for CLParser {
    fn handle_input(matches: &Matches, config: Result<DocumentShape, Error>) -> (r: Result<
        Outcome,
        Error,
    >)
        ensures
            handled_view(r) == input_outcome(matches@, loaded_view(config)),
    {
        match matches.subcommand() {
            Some((name, given)) => {
                if *name == *"list" {
                    CLParser::handle_list_command(given, config)
                } else if *name == *"set" {
                    CLParser::handle_set_command(given, config)
                } else if *name == *"write" {
                    CLParser::handle_write_command(config)
                } else {
                    Ok(
                        Outcome {
                            notice: Some(Notice::UnrecognizedCommand(name.to_string())),
                            action: Action::Nothing,
                        },
                    )
                }
            },
            None => Ok(Outcome { notice: Some(Notice::NoCommand), action: Action::Nothing }),
        }
    }

    fn handle_list_command(matches: &Matches, config: Result<DocumentShape, Error>) -> (r: Result<
        Outcome,
        Error,
    >)
        ensures
            handled_view(r) == list_outcome(matches@, loaded_view(config)),
    {
        let asked_for_config = match matches.subcommand() {
            Some((name, _)) => *name == *"config",
            None => false,
        };
        if asked_for_config {
            match config {
                Ok(shape) => Ok(Outcome { notice: None, action: Action::Show(shape) }),
                Err(e) => Err(e),
            }
        } else {
            Ok(Outcome { notice: Some(Notice::UnknownListing), action: Action::Nothing })
        }
    }

    fn handle_set_command(matches: &Matches, config: Result<DocumentShape, Error>) -> (r: Result<
        Outcome,
        Error,
    >)
        ensures
            handled_view(r) == set_outcome(matches@, loaded_view(config)),
    {
        let mut shape = match config {
            Ok(shape) => shape,
            Err(e) => {
                return Err(e);
            },
        };
        match matches.subcommand() {
            Some((name, args)) => match Arguments::mutation(name, args) {
                Some(mutation) => {
                    shape.apply(mutation);
                    Ok(Outcome { notice: None, action: Action::Store(shape) })
                },
                None => Ok(
                    Outcome {
                        notice: Some(Notice::UnrecognizedSection(name.to_string())),
                        action: Action::Store(shape),
                    },
                ),
            },
            None => Ok(Outcome { notice: Some(Notice::NoSection), action: Action::Store(shape) }),
        }
    }

    fn handle_write_command(config: Result<DocumentShape, Error>) -> (r: Result<Outcome, Error>)
        ensures
            handled_view(r) == write_outcome(loaded_view(config)),
    {
        let shape = match config {
            Ok(shape) => shape,
            Err(e) => {
                return Err(e);
            },
        };
        match render(shape) {
            Ok(page) => Ok(Outcome { notice: None, action: Action::Render(page) }),
            Err(e) => Err(e),
        }
    }
}

} // verus!
