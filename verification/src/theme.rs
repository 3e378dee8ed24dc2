//! Compiling themes and choosing their component.

use slint_interpreter::{CompilationResult, ComponentDefinition};

use vstd::prelude::*;

use crate::text::{join, join_text, joined2, texts};
use crate::ui::lists;

verus! {

/// `slint_interpreter::CompilationResult`: the diagnostics of a compilation and the
/// components that it made.
#[verifier::external_type_specification]
#[verifier::external_body]
pub struct ExCompilationResult(slint_interpreter::CompilationResult);

/// `slint_interpreter::ComponentDefinition`: a compiled component with its members.
#[verifier::external_type_specification]
#[verifier::external_body]
pub struct ExComponentDefinition(slint_interpreter::ComponentDefinition);

/// How serious a remark of the compiler is. Only errors stand in a theme's way.
#[derive(Debug, Clone, Copy, PartialEq, Eq, Structural)]
pub enum Severity {
    Error,
    Warning,
    Other,
}

/// One remark of the compiler.
#[derive(Debug, PartialEq, Eq)]
pub struct Remark<Text = String> {
    pub severity: Severity,
    pub text: Text,
}

impl View for Remark {
    type V = Remark<Seq<char>>;

    open spec fn view(&self) -> Remark<Seq<char>> {
        Remark { severity: self.severity, text: self.text@ }
    }
}

pub open spec fn remarks(list: Seq<Remark>) -> Seq<Remark<Seq<char>>> {
    list.map_values(|r: Remark| r@)
}

/// The remarks that a compilation result holds.
pub uninterp spec fn remarks_of(result: CompilationResult) -> Seq<Remark<Seq<char>>>;

/// The components that a compilation result holds, by their names.
pub uninterp spec fn components_of(result: CompilationResult) -> Map<Seq<char>, ComponentDefinition>;

/// The name that a component has in its source, which an export can change.
pub uninterp spec fn source_name_of(def: ComponentDefinition) -> Seq<char>;

/// The names of the properties that a component declares.
pub uninterp spec fn property_names_of(def: ComponentDefinition) -> Seq<Seq<char>>;

/// The names of the callbacks that a component declares.
pub uninterp spec fn callback_names_of(def: ComponentDefinition) -> Seq<Seq<char>>;

/// Whether the compiler can make this result of a source under a path. A theme can
/// import other files, so that several results are possible.
pub uninterp spec fn may_build(
    source: Seq<char>,
    path: Seq<char>,
    result: CompilationResult,
) -> bool;

/// `slint_interpreter::Compiler::build_from_source` of a source under a path, run to
/// its end by `pollster::block_on`. The result depends on what is on disk too, so all
/// that is claimed is that it is one which the compiler can make of the two.
#[verifier::external_body]
fn build(source: String, path: &str) -> (result: CompilationResult)
    ensures
        may_build(source@, path@, result),
{
    let compiler = slint_interpreter::Compiler::new();
    pollster::block_on(compiler.build_from_source(source, std::path::PathBuf::from(path)))
}

/// `CompilationResult::diagnostics`: the remarks in their order, each with its level
/// and its text.
#[verifier::external_body]
fn diagnostics(result: &CompilationResult) -> (list: Vec<Remark>)
    ensures
        remarks(list@) == remarks_of(*result),
{
    result.diagnostics().map(
        |d|
            Remark {
                severity: match d.level() {
                    slint_interpreter::DiagnosticLevel::Error => Severity::Error,
                    slint_interpreter::DiagnosticLevel::Warning => Severity::Warning,
                    _ => Severity::Other,
                },
                text: d.to_string(),
            },
    ).collect()
}

/// `CompilationResult::component_names`: the name of each component once, in no
/// particular order.
#[verifier::external_body]
fn component_names(result: &CompilationResult) -> (names: Vec<String>)
    ensures
        texts(names@).to_set() == components_of(*result).dom(),
        texts(names@).no_duplicates(),
{
    result.component_names().map(|n| n.to_string()).collect()
}

/// `CompilationResult::component`: the component that is held under that name, where
/// there is one.
#[verifier::external_body]
fn component(result: &CompilationResult, name: &str) -> (def: Option<ComponentDefinition>)
    ensures
        def == if components_of(*result).contains_key(name@) {
            Some(components_of(*result)[name@])
        } else {
            None
        },
{
    result.component(name)
}

/// `ComponentDefinition::name`: the name of the component in its source.
#[verifier::external_body]
fn source_name(def: &ComponentDefinition) -> (name: String)
    ensures
        name@ == source_name_of(*def),
{
    def.name().to_string()
}

/// `ComponentDefinition::properties`: the names of the properties, in their order.
#[verifier::external_body]
fn properties(def: &ComponentDefinition) -> (names: Vec<String>)
    ensures
        texts(names@) == property_names_of(*def),
{
    def.properties().map(|p| p.0).collect()
}

/// `ComponentDefinition::callbacks`: the names of the callbacks, in their order.
#[verifier::external_body]
fn callbacks(def: &ComponentDefinition) -> (names: Vec<String>)
    ensures
        texts(names@) == callback_names_of(*def),
{
    def.callbacks().collect()
}

/// The texts of the errors among some remarks.
pub open spec fn error_texts(list: Seq<Remark<Seq<char>>>) -> Seq<Seq<char>>
    decreases list.len(),
{
    if list.len() == 0 {
        seq![]
    } else if list.last().severity == Severity::Error {
        error_texts(list.drop_last()).push(list.last().text)
    } else {
        error_texts(list.drop_last())
    }
}

/// The texts of the warnings among some remarks.
pub open spec fn warning_texts(list: Seq<Remark<Seq<char>>>) -> Seq<Seq<char>>
    decreases list.len(),
{
    if list.len() == 0 {
        seq![]
    } else if list.last().severity == Severity::Warning {
        warning_texts(list.drop_last()).push("[theme warning] "@ + list.last().text)
    } else {
        warning_texts(list.drop_last())
    }
}

/// Sorts remarks into errors and lines that warn.
pub fn sort_remarks(list: &Vec<Remark>) -> (sorted: (Vec<String>, Vec<String>))
    ensures
        texts(sorted.0@) == error_texts(remarks(list@)),
        texts(sorted.1@) == warning_texts(remarks(list@)),
{
    let mut errors: Vec<String> = Vec::new();
    let mut warnings: Vec<String> = Vec::new();
    let ghost all = remarks(list@);
    let mut i: usize = 0;
    assert(texts(errors@) =~= error_texts(all.take(0)));
    assert(texts(warnings@) =~= warning_texts(all.take(0)));
    while i < list.len()
        invariant
            i <= list@.len(),
            all == remarks(list@),
            texts(errors@) == error_texts(all.take(i as int)),
            texts(warnings@) == warning_texts(all.take(i as int)),
        decreases list@.len() - i,
    {
        proof {
            assert(all.take(i + 1).drop_last() =~= all.take(i as int));
            assert(all.take(i + 1).last() == list@[i as int]@);
        }
        let ghost e = texts(errors@);
        let ghost w = texts(warnings@);
        match list[i].severity {
            Severity::Error => {
                errors.push(list[i].text.clone());
                assert(texts(errors@) =~= e.push(list@[i as int].text@));
            },
            Severity::Warning => {
                let line = joined2("[theme warning] ", list[i].text.as_str());
                warnings.push(line);
                assert(texts(warnings@) =~= w.push(line@));
            },
            Severity::Other => {},
        }
        i = i + 1;
    }
    assert(all.take(i as int) =~= all);
    (errors, warnings)
}

/// Whether `name` is the component of a theme that exports `names`: one of three
/// well-known ones, in this order, or else any.
pub open spec fn is_pick(names: Set<Seq<char>>, name: Seq<char>) -> bool {
    &&& names.contains(name)
    &&& names.contains("App"@) ==> name == "App"@
    &&& !names.contains("App"@) && names.contains("MainWindow"@) ==> name == "MainWindow"@
    &&& !names.contains("App"@) && !names.contains("MainWindow"@) && names.contains(
        "FloatingWindow"@,
    ) ==> name == "FloatingWindow"@
}

/// The component of a theme, among the names of those that it exports.
pub fn pick_component(names: &Vec<String>) -> (pick: Option<String>)
    ensures
        pick is Some == (names@.len() > 0),
        pick matches Some(name) ==> is_pick(texts(names@).to_set(), name@),
        names@.len() == 1 ==> pick->Some_0@ == names@[0]@,
{
    broadcast use vstd::seq_lib::group_seq_properties;

    if lists(names, "App") {
        Some("App".to_owned())
    } else if lists(names, "MainWindow") {
        Some("MainWindow".to_owned())
    } else if lists(names, "FloatingWindow") {
        Some("FloatingWindow".to_owned())
    } else if names.len() > 0 {
        assert(texts(names@)[0] == names@[0]@);
        Some(names[0].clone())
    } else {
        None
    }
}

/// A theme that was compiled.
pub struct Compiled {
    /// The name under which the component was found.
    pub name: String,
    pub def: ComponentDefinition,
    /// The properties and callbacks that it declares.
    pub props: Vec<String>,
    pub callbacks: Vec<String>,
    /// Lines that warn.
    pub warnings: Vec<String>,
}

/// Why a theme was not compiled.
#[derive(Debug, PartialEq, Eq)]
pub struct CompileError {
    pub message: String,
    /// Lines that warn.
    pub warnings: Vec<String>,
}

/// What comes of a compilation result: its errors, one to a line, when it has any;
/// a complaint when it has no component; and else its component. Its warnings come
/// with it unless there are errors.
pub open spec fn judged(
    result: CompilationResult,
    path: Seq<char>,
    out: Result<Compiled, CompileError>,
) -> bool {
    let errors = error_texts(remarks_of(result));
    let names = components_of(result).dom();
    match out {
        Err(e) => if errors.len() > 0 {
            e.message@ == join_text(errors, "\n"@) && texts(e.warnings@) == Seq::<
                Seq<char>,
            >::empty()
        } else {
            &&& names == Set::<Seq<char>>::empty()
            &&& e.message@ == path + ": no exported component found"@
            &&& texts(e.warnings@) == warning_texts(remarks_of(result))
        },
        Ok(theme) => {
            &&& errors.len() == 0
            &&& is_pick(names, theme.name@)
            &&& theme.def == components_of(result)[theme.name@]
            &&& texts(theme.props@) == property_names_of(theme.def)
            &&& texts(theme.callbacks@) == callback_names_of(theme.def)
            &&& texts(theme.warnings@) == warning_texts(remarks_of(result))
        },
    }
}

/// Compiles a theme. What the compiler makes of it can depend on the files that
/// the theme imports.
pub fn compile(source: String, path: &str) -> (out: Result<Compiled, CompileError>)
    ensures
        exists|result: CompilationResult| #[trigger]
            may_build(source@, path@, result) && judged(result, path@, out),
{
    let result = build(source, path);
    judge(&result, path)
}

/// What comes of a compilation result.
pub fn judge(result: &CompilationResult, path: &str) -> (out: Result<Compiled, CompileError>)
    ensures
        judged(*result, path@, out),
{
    broadcast use vstd::seq_lib::group_seq_properties;

    let list = diagnostics(result);
    let (errors, warnings) = sort_remarks(&list);
    assert(texts(errors@).len() == errors@.len());
    if errors.len() > 0 {
        let none: Vec<String> = Vec::new();
        assert(texts(none@) =~= Seq::<Seq<char>>::empty());
        return Err(CompileError { message: join(&errors, "\n"), warnings: none });
    }
    let names = component_names(result);
    assert(texts(names@).len() == names@.len());
    proof {
        if names@.len() == 0 {
            assert(texts(names@).to_set() =~= Set::<Seq<char>>::empty());
        } else {
            assert(texts(names@).to_set().contains(texts(names@)[0]));
        }
    }
    if let Some(name) = pick_component(&names) {
        if let Some(def) = component(result, name.as_str()) {
            let props = properties(&def);
            let callbacks = callbacks(&def);
            return Ok(Compiled { name, def, props, callbacks, warnings });
        }
    }
    Err(CompileError { message: joined2(path, ": no exported component found"), warnings })
}

/// What a check of a theme prints, and where: the exit code, the lines of the
/// output and those of the error output.
pub struct CheckReport {
    pub code: i32,
    pub out: Vec<String>,
    pub err: Vec<String>,
}

/// The lines of a check that found a component.
pub open spec fn members_report(
    path: Seq<char>,
    name: Seq<char>,
    props: Seq<Seq<char>>,
    cbs: Seq<Seq<char>>,
) -> Seq<Seq<char>> {
    seq![
        "OK "@ + path,
        "  component : "@ + name,
        "  properties: "@ + join_text(props, ", "@),
        "  callbacks : "@ + join_text(cbs, ", "@),
    ]
}

/// What a check makes of the outcome of a compilation.
pub open spec fn reported(
    path: Seq<char>,
    theme: Result<Compiled, CompileError>,
    r: CheckReport,
) -> bool {
    match theme {
        Ok(t) => {
            &&& r.code == 0
            &&& texts(r.out@) == members_report(
                path,
                source_name_of(t.def),
                texts(t.props@),
                texts(t.callbacks@),
            )
            &&& texts(r.err@) == texts(t.warnings@)
        },
        Err(e) => {
            &&& r.code == 1
            &&& texts(r.out@) == Seq::<Seq<char>>::empty()
            &&& texts(r.err@) == texts(e.warnings@).push("COMPILE ERRORS:\n"@ + e.message@)
        },
    }
}

/// Checks whether the theme of a file compiles; `source` is what was read from it.
pub fn compile_check(source: Option<String>, path: &str) -> (r: CheckReport)
    ensures
        source is None ==> r.code == 1 && texts(r.out@) == Seq::<Seq<char>>::empty() && texts(
            r.err@,
        ) == seq!["cannot read "@ + path@],
        source matches Some(text) ==> exists|
            result: CompilationResult,
            theme: Result<Compiled, CompileError>,
        |
            may_build(text@, path@, result) && #[trigger] judged(result, path@, theme) && reported(
                path@,
                theme,
                r,
            ),
{
    match source {
        None => {
            let mut err: Vec<String> = Vec::new();
            err.push(joined2("cannot read ", path));
            let out: Vec<String> = Vec::new();
            assert(texts(err@) =~= seq!["cannot read "@ + path@]);
            assert(texts(out@) =~= Seq::<Seq<char>>::empty());
            CheckReport { code: 1, out, err }
        },
        Some(text) => {
            let ghost given = text@;
            let theme = compile(text, path);
            let ghost outcome = theme;
            let r = check_report(path, theme);
            proof {
                let result = choose|result: CompilationResult| #[trigger]
                    may_build(given, path@, result) && judged(result, path@, outcome);
                assert(judged(result, path@, outcome) && reported(path@, outcome, r));
            }
            r
        },
    }
}

/// What a check prints on the outcome of a compilation.
pub fn check_report(path: &str, theme: Result<Compiled, CompileError>) -> (r: CheckReport)
    ensures
        reported(path@, theme, r),
{
    let mut out: Vec<String> = Vec::new();
    match theme {
        Ok(t) => {
            out.push(joined2("OK ", path));
            out.push(joined2("  component : ", source_name(&t.def).as_str()));
            out.push(joined2("  properties: ", join(&t.props, ", ").as_str()));
            out.push(joined2("  callbacks : ", join(&t.callbacks, ", ").as_str()));
            assert(texts(out@) =~= members_report(
                path@,
                source_name_of(t.def),
                texts(t.props@),
                texts(t.callbacks@),
            ));
            CheckReport { code: 0, out, err: t.warnings }
        },
        Err(e) => {
            let mut err = e.warnings;
            err.push(joined2("COMPILE ERRORS:\n", e.message.as_str()));
            assert(texts(err@) =~= texts(e.warnings@).push("COMPILE ERRORS:\n"@ + e.message@));
            assert(texts(out@) =~= Seq::<Seq<char>>::empty());
            CheckReport { code: 1, out, err }
        },
    }
}

} // verus!
