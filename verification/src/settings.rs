//! The settings: which language the program speaks and which model the
//! suggester is asked to use, how they are chosen, saved and reset, and how
//! they are asked for when the program runs for the first time.

use crate::config::{
    find_lang, get_lang, get_model, joined, lang_file, lang_with_code, model_file, reset,
    resetting, saved_model, saving, set_lang, set_model,
};
use crate::flow::{
    failure, just, push_say, push_text, success, success_text, ActView, App, Reply, ReplyView,
    Request, RequestView, Step, StepView,
};
use crate::i18n::{all_langs, catalog, langs, messages, Lang, Messages};
use crate::menu::{MenuSpec, MenuSpecView};
use crate::text::{opt_view, replace_first, replaced_first, same, views};
use vstd::prelude::*;
use vstd::string::*;

verus! {

/// How many models are on offer.
pub const MODEL_COUNT: usize = 3;

/// The name by which the suggester knows the model with this index.
pub open spec fn model_id(index: int) -> Seq<char> {
    if index == 0 {
        "sonnet"@
    } else if index == 1 {
        "opus"@
    } else {
        "haiku"@
    }
}

/// The menu label of the model with this index.
pub open spec fn model_label(index: int) -> Seq<char> {
    if index == 0 {
        "Sonnet  (sonnet)"@
    } else if index == 1 {
        "Opus    (opus)"@
    } else {
        "Haiku   (haiku)"@
    }
}

/// The name by which the suggester knows the model with this index.
pub fn model_id_at(index: usize) -> (id: &'static str)
    requires
        index < MODEL_COUNT,
    ensures
        id@ == model_id(index as int),
{
    if index == 0 {
        "sonnet"
    } else if index == 1 {
        "opus"
    } else {
        "haiku"
    }
}

/// The menu label of the model with this index.
pub fn model_label_at(index: usize) -> (label: &'static str)
    requires
        index < MODEL_COUNT,
    ensures
        label@ == model_label(index as int),
{
    if index == 0 {
        "Sonnet  (sonnet)"
    } else if index == 1 {
        "Opus    (opus)"
    } else {
        "Haiku   (haiku)"
    }
}

/// `label`, with a star behind it if it stands for what is in force.
pub open spec fn marked(label: Seq<char>, current: bool) -> Seq<char> {
    if current {
        label + " \u{2605}"@
    } else {
        label
    }
}

/// The menu of languages: each language's name, the one whose code is
/// `current` marked.
pub open spec fn lang_items(current: Seq<char>) -> Seq<Seq<char>> {
    all_langs().map_values(|lang: Lang| marked(lang.name_text(), lang.code_text() == current))
}

/// The menu of models: each model's label, the one named `current` marked.
pub open spec fn model_items(current: Seq<char>) -> Seq<Seq<char>> {
    Seq::new(MODEL_COUNT as nat, |i: int| marked(model_label(i), model_id(i) == current))
}

/// The menu of models with none marked.
pub open spec fn model_labels() -> Seq<Seq<char>> {
    Seq::new(MODEL_COUNT as nat, |i: int| model_label(i))
}

/// How the language in force is shown: by its name, or as not set where
/// `current` is no language's code.
pub open spec fn lang_shown(m: Messages, current: Seq<char>) -> Seq<char> {
    match lang_with_code(current) {
        Some(lang) => lang.name_text(),
        None => m.model_none@,
    }
}

/// How the model in force is shown: by its name, or as not set.
pub open spec fn model_shown(m: Messages, model: Option<Seq<char>>) -> Seq<char> {
    match model {
        Some(model) => model,
        None => m.model_none@,
    }
}

/// An entry of the settings menu: the setting's name and, in brackets,
/// what is in force.
pub open spec fn entry(name: Seq<char>, value: Seq<char>) -> Seq<char> {
    name + "  ("@ + value + ")"@
}

/// A string that may be missing, empty where it is.
pub open spec fn or_empty(s: Option<Seq<char>>) -> Seq<char> {
    match s {
        Some(s) => s,
        None => Seq::empty(),
    }
}

/// Where the settings workflow stands.
#[derive(Clone, Debug, PartialEq, Eq)]
pub enum SettingsState {
    Start,
    /// Asked for the saved language.
    LoadingLang,
    /// Asked for the saved model; the saved language is known.
    LoadingModel { lang: String },
    /// Offered the settings, with the saved language and model known.
    Choosing { lang: String, model: String },
    /// Offered the languages.
    ChoosingLang,
    /// Offered the models.
    ChoosingModel,
    Finished,
}

/// A `SettingsState` as plain text.
pub enum SettingsView {
    Start,
    LoadingLang,
    LoadingModel { lang: Seq<char> },
    Choosing { lang: Seq<char>, model: Seq<char> },
    ChoosingLang,
    ChoosingModel,
    Finished,
}

impl View for SettingsState {
    type V = SettingsView;

    open spec fn view(&self) -> SettingsView {
        match self {
            SettingsState::Start => SettingsView::Start,
            SettingsState::LoadingLang => SettingsView::LoadingLang,
            SettingsState::LoadingModel { lang } => SettingsView::LoadingModel { lang: lang@ },
            SettingsState::Choosing { lang, model } => SettingsView::Choosing {
                lang: lang@,
                model: model@,
            },
            SettingsState::ChoosingLang => SettingsView::ChoosingLang,
            SettingsState::ChoosingModel => SettingsView::ChoosingModel,
            SettingsState::Finished => SettingsView::Finished,
        }
    }
}

/// The end of the workflow with nothing more to say.
pub open spec fn finished() -> (SettingsView, StepView) {
    (SettingsView::Finished, just(RequestView::Done))
}

/// The settings menu, with what is in force shown beside each setting.
pub open spec fn settings_menu(m: Messages, lang: Seq<char>, model: Option<Seq<char>>) -> StepView {
    just(
        RequestView::Select(
            MenuSpecView {
                title: m.settings_title@,
                items: seq![
                    entry(m.settings_lang@, lang_shown(m, lang)),
                    entry(m.settings_model@, model_shown(m, model)),
                    m.settings_reset@,
                ],
                hint: m.menu_hint@,
            },
        ),
    )
}

/// The menu of languages.
pub open spec fn lang_menu(m: Messages, current: Seq<char>) -> (SettingsView, StepView) {
    (
        SettingsView::ChoosingLang,
        just(
            RequestView::Select(
                MenuSpecView {
                    title: m.settings_lang@,
                    items: lang_items(current),
                    hint: m.menu_hint@,
                },
            ),
        ),
    )
}

/// The menu of models.
pub open spec fn model_menu(m: Messages, current: Seq<char>) -> (SettingsView, StepView) {
    (
        SettingsView::ChoosingModel,
        just(
            RequestView::Select(
                MenuSpecView {
                    title: m.model_select@,
                    items: model_items(current),
                    hint: m.menu_hint@,
                },
            ),
        ),
    )
}

/// With a language chosen: save its code and say so in that language.
pub open spec fn lang_chosen(config_dir: Seq<char>, index: int) -> StepView {
    let lang = all_langs()[index];
    StepView {
        acts: saving(config_dir, "lang"@, lang.code_text()).push(
            ActView::Say(
                success_text(replaced_first(catalog(lang).lang_set@, "%s"@, lang.name_text())),
            ),
        ),
        request: RequestView::Done,
    }
}

/// With a model chosen: save its name and say so.
pub open spec fn model_chosen(m: Messages, config_dir: Seq<char>, index: int) -> StepView {
    StepView {
        acts: saving(config_dir, "model"@, model_id(index)).push(
            ActView::Say(success_text(replaced_first(m.model_set@, "%s"@, model_id(index)))),
        ),
        request: RequestView::Done,
    }
}

/// The next state and step of the settings workflow. A cancelled menu
/// ends it quietly; a reply that the state does not expect ends it in
/// failure.
pub open spec fn settings_step(
    m: Messages,
    config_dir: Seq<char>,
    state: SettingsView,
    reply: ReplyView,
) -> (SettingsView, StepView) {
    match (state, reply) {
        (SettingsView::Start, ReplyView::Start) => (
            SettingsView::LoadingLang,
            just(RequestView::ReadFile(joined(config_dir, "lang"@))),
        ),
        (SettingsView::LoadingLang, ReplyView::Output(lang)) => (
            SettingsView::LoadingModel { lang: or_empty(lang) },
            just(RequestView::ReadFile(joined(config_dir, "model"@))),
        ),
        (SettingsView::LoadingModel { lang }, ReplyView::Output(content)) => (
            SettingsView::Choosing { lang, model: or_empty(saved_model(content)) },
            settings_menu(m, lang, saved_model(content)),
        ),
        (SettingsView::Choosing { lang, model }, ReplyView::Selected(choice)) => match choice {
            Some(index) => if index == 0 {
                lang_menu(m, lang)
            } else if index == 1 {
                model_menu(m, model)
            } else if index == 2 {
                (
                    SettingsView::Finished,
                    StepView {
                        acts: resetting(config_dir).push(
                            ActView::Say(success_text(m.settings_reset_done@)),
                        ),
                        request: RequestView::Done,
                    },
                )
            } else {
                finished()
            },
            None => finished(),
        },
        (SettingsView::ChoosingLang, ReplyView::Selected(choice)) => match choice {
            Some(index) => if index < all_langs().len() {
                (SettingsView::Finished, lang_chosen(config_dir, index as int))
            } else {
                (SettingsView::Finished, failure())
            },
            None => finished(),
        },
        (SettingsView::ChoosingModel, ReplyView::Selected(choice)) => match choice {
            Some(index) => if index < MODEL_COUNT {
                (SettingsView::Finished, model_chosen(m, config_dir, index as int))
            } else {
                (SettingsView::Finished, failure())
            },
            None => finished(),
        },
        _ => (SettingsView::Finished, failure()),
    }
}

/// The menu of languages.
pub fn lang_items_of(current: &str) -> (items: Vec<String>)
    ensures
        views(items@) == lang_items(current@),
{
    let all = langs();
    let mut items: Vec<String> = Vec::new();
    let mut i: usize = 0;
    while i < all.len()
        invariant
            i <= all.len(),
            all@ == all_langs(),
            items.len() == i,
            forall|j: int|
                0 <= j < i ==> items@[j]@ == marked(
                    all_langs()[j].name_text(),
                    all_langs()[j].code_text() == current@,
                ),
        decreases all.len() - i,
    {
        let mut item = String::from_str(all[i].name());
        if same(all[i].code(), current) {
            item.append(" \u{2605}");
        }
        items.push(item);
        i += 1;
    }
    items
}

/// The menu of models; `current` is marked, if it is given.
pub fn model_items_of(current: Option<&str>) -> (items: Vec<String>)
    ensures
        views(items@) == match current {
            Some(current) => model_items(current@),
            None => model_labels(),
        },
{
    let mut items: Vec<String> = Vec::new();
    let mut i: usize = 0;
    while i < MODEL_COUNT
        invariant
            i <= MODEL_COUNT,
            items.len() == i,
            forall|j: int|
                0 <= j < i ==> items@[j]@ == match current {
                    Some(current) => marked(model_label(j), model_id(j) == current@),
                    None => model_label(j),
                },
        decreases MODEL_COUNT - i,
    {
        let mut item = String::from_str(model_label_at(i));
        if let Some(current) = current {
            if same(model_id_at(i), current) {
                item.append(" \u{2605}");
            }
        }
        items.push(item);
        i += 1;
    }
    items
}

/// An entry of the settings menu.
fn entry_of(name: &str, value: &str) -> (item: String)
    ensures
        item@ == entry(name@, value@),
{
    let mut item = String::from_str(name);
    item.append("  (");
    item.append(value);
    item.append(")");
    item
}

/// Opens the menu of languages, the one whose code is `current` marked.
pub fn select_lang(app: &App, current: &str) -> (next: (SettingsState, Step))
    ensures
        (next.0@, next.1@) == lang_menu(app.messages, current@),
{
    let menu = MenuSpec {
        title: String::from_str(app.messages.settings_lang),
        items: lang_items_of(current),
        hint: String::from_str(app.messages.menu_hint),
    };
    (SettingsState::ChoosingLang, Step::just(Request::Select(menu)))
}

/// Opens the menu of models, the one named `current` marked.
pub fn select_model(app: &App, current: &str) -> (next: (SettingsState, Step))
    ensures
        (next.0@, next.1@) == model_menu(app.messages, current@),
{
    let menu = MenuSpec {
        title: String::from_str(app.messages.model_select),
        items: model_items_of(Some(current)),
        hint: String::from_str(app.messages.menu_hint),
    };
    (SettingsState::ChoosingModel, Step::just(Request::Select(menu)))
}

fn settings_menu_of(m: &Messages, lang: &str, model: &Option<String>) -> (step: Step)
    ensures
        step@ == settings_menu(*m, lang@, opt_view(*model)),
{
    let lang_value = match find_lang(lang) {
        Some(found) => found.name(),
        None => m.model_none,
    };
    let model_value = match model {
        Some(model) => entry_of(m.settings_model, model.as_str()),
        None => entry_of(m.settings_model, m.model_none),
    };
    let mut items: Vec<String> = Vec::new();
    push_text(&mut items, entry_of(m.settings_lang, lang_value));
    push_text(&mut items, model_value);
    push_text(&mut items, String::from_str(m.settings_reset));
    assert(views(items@) == seq![
        entry(m.settings_lang@, lang_shown(*m, lang@)),
        entry(m.settings_model@, model_shown(*m, opt_view(*model))),
        m.settings_reset@,
    ]);
    Step::just(
        Request::Select(
            MenuSpec {
                title: String::from_str(m.settings_title),
                items,
                hint: String::from_str(m.menu_hint),
            },
        ),
    )
}

fn lang_chosen_step(config_dir: &str, index: usize) -> (step: Step)
    requires
        index < all_langs().len(),
    ensures
        step@ == lang_chosen(config_dir@, index as int),
{
    let all = langs();
    let lang = all[index];
    let mut acts = set_lang(config_dir, lang.code());
    let report = replace_first(messages(lang).lang_set, "%s", lang.name());
    push_say(&mut acts, success(report.as_str()));
    Step { acts, request: Request::Done }
}

fn model_chosen_step(m: &Messages, config_dir: &str, index: usize) -> (step: Step)
    requires
        index < MODEL_COUNT,
    ensures
        step@ == model_chosen(*m, config_dir@, index as int),
{
    let mut acts = set_model(config_dir, model_id_at(index));
    let report = replace_first(m.model_set, "%s", model_id_at(index));
    push_say(&mut acts, success(report.as_str()));
    Step { acts, request: Request::Done }
}

/// Takes the settings workflow one step on: from `state` and the answer
/// to the request before, to the next state and what to do now. It begins
/// in `SettingsState::Start` with `Reply::Start`.
pub fn cmd_settings(app: &App, state: SettingsState, reply: Reply) -> (next: (
    SettingsState,
    Step,
))
    ensures
        (next.0@, next.1@) == settings_step(app.messages, app.config_dir@, state@, reply@),
{
    let m = &app.messages;
    let dir = app.config_dir.as_str();
    match (state, reply) {
        (SettingsState::Start, Reply::Start) => (
            SettingsState::LoadingLang,
            Step::just(get_lang(dir)),
        ),
        (SettingsState::LoadingLang, Reply::Output(lang)) => {
            let lang = match lang {
                Some(lang) => lang,
                None => String::new(),
            };
            (SettingsState::LoadingModel { lang }, Step::just(Request::ReadFile(model_file(dir))))
        },
        (SettingsState::LoadingModel { lang }, Reply::Output(content)) => {
            let model = get_model(content);
            let step = settings_menu_of(m, lang.as_str(), &model);
            let model = match model {
                Some(model) => model,
                None => String::new(),
            };
            (SettingsState::Choosing { lang, model }, step)
        },
        (SettingsState::Choosing { lang, model }, Reply::Selected(choice)) => {
            match choice {
                Some(index) => {
                    if index == 0 {
                        select_lang(app, lang.as_str())
                    } else if index == 1 {
                        select_model(app, model.as_str())
                    } else if index == 2 {
                        let mut acts = reset(dir);
                        push_say(&mut acts, success(m.settings_reset_done));
                        (SettingsState::Finished, Step { acts, request: Request::Done })
                    } else {
                        (SettingsState::Finished, Step::just(Request::Done))
                    }
                },
                None => (SettingsState::Finished, Step::just(Request::Done)),
            }
        },
        (SettingsState::ChoosingLang, Reply::Selected(choice)) => {
            match choice {
                Some(index) => {
                    if index < 7 {
                        (SettingsState::Finished, lang_chosen_step(dir, index))
                    } else {
                        (SettingsState::Finished, Step::failure())
                    }
                },
                None => (SettingsState::Finished, Step::just(Request::Done)),
            }
        },
        (SettingsState::ChoosingModel, Reply::Selected(choice)) => {
            match choice {
                Some(index) => {
                    if index < MODEL_COUNT {
                        (SettingsState::Finished, model_chosen_step(m, dir, index))
                    } else {
                        (SettingsState::Finished, Step::failure())
                    }
                },
                None => (SettingsState::Finished, Step::just(Request::Done)),
            }
        },
        _ => (SettingsState::Finished, Step::failure()),
    }
}

/// The title of the language menu of the first run, when no language is
/// in force yet.
pub const FIRST_RUN_TITLE: &'static str = "Select language / \u{8a00}\u{8a9e}\u{9078}\u{629e}";

/// The hint below the language menu of the first run.
pub const FIRST_RUN_HINT: &'static str = "\u{2191}\u{2193}: move  Enter: select  q: cancel";

/// Where the first-run workflow stands.
#[derive(Clone, Copy, Debug, PartialEq, Eq)]
pub enum FirstRunState {
    Start,
    /// Asked whether a language is saved.
    Probing,
    /// Offered the languages.
    ChoosingLang,
    /// Offered the models, in the language just chosen.
    ChoosingModel(Lang),
    Finished,
}

/// The names of all languages, in the order in which they are offered.
pub open spec fn lang_names() -> Seq<Seq<char>> {
    all_langs().map_values(|lang: Lang| lang.name_text())
}

/// The next state and step of the first-run workflow.
///
/// Where a language is saved there is nothing to do. Otherwise the
/// language and then the model are asked for and saved; cancelling either
/// menu ends the program, without failure. A reply that the state does
/// not expect ends it in failure.
pub open spec fn first_run_step(config_dir: Seq<char>, state: FirstRunState, reply: ReplyView) -> (
    FirstRunState,
    StepView,
) {
    match (state, reply) {
        (FirstRunState::Start, ReplyView::Start) => (
            FirstRunState::Probing,
            just(RequestView::Exists(joined(config_dir, "lang"@))),
        ),
        (FirstRunState::Probing, ReplyView::Status(found)) => if found {
            (FirstRunState::Finished, just(RequestView::Done))
        } else {
            (
                FirstRunState::ChoosingLang,
                just(
                    RequestView::Select(
                        MenuSpecView {
                            title: FIRST_RUN_TITLE@,
                            items: lang_names(),
                            hint: FIRST_RUN_HINT@,
                        },
                    ),
                ),
            )
        },
        (FirstRunState::ChoosingLang, ReplyView::Selected(choice)) => match choice {
            Some(index) => if index < all_langs().len() {
                (
                    FirstRunState::ChoosingModel(all_langs()[index as int]),
                    StepView {
                        acts: saving(config_dir, "lang"@, all_langs()[index as int].code_text()),
                        request: RequestView::Select(
                            MenuSpecView {
                                title: catalog(all_langs()[index as int]).model_select@,
                                items: model_labels(),
                                hint: catalog(all_langs()[index as int]).menu_hint@,
                            },
                        ),
                    },
                )
            } else {
                (FirstRunState::Finished, failure())
            },
            None => (FirstRunState::Finished, just(RequestView::Exit(0))),
        },
        (FirstRunState::ChoosingModel(lang), ReplyView::Selected(choice)) => match choice {
            Some(index) => if index < MODEL_COUNT {
                (
                    FirstRunState::Finished,
                    StepView {
                        acts: saving(config_dir, "model"@, model_id(index as int)).push(
                            ActView::Say(
                                success_text(
                                    replaced_first(
                                        catalog(lang).model_set@,
                                        "%s"@,
                                        model_id(index as int),
                                    ),
                                ),
                            ),
                        ).push(ActView::Say(Seq::empty())),
                        request: RequestView::Done,
                    },
                )
            } else {
                (FirstRunState::Finished, failure())
            },
            None => (FirstRunState::Finished, just(RequestView::Exit(0))),
        },
        _ => (FirstRunState::Finished, failure()),
    }
}

/// The names of all languages.
pub fn lang_names_of() -> (names: Vec<String>)
    ensures
        views(names@) == lang_names(),
{
    let all = langs();
    let mut names: Vec<String> = Vec::new();
    let mut i: usize = 0;
    while i < all.len()
        invariant
            i <= all.len(),
            all@ == all_langs(),
            names.len() == i,
            forall|j: int| 0 <= j < i ==> names@[j]@ == all_langs()[j].name_text(),
        decreases all.len() - i,
    {
        names.push(String::from_str(all[i].name()));
        i += 1;
    }
    names
}

/// Takes the first-run workflow one step on: from `state` and the answer
/// to the request before, to the next state and what to do now. It begins
/// in `FirstRunState::Start` with `Reply::Start`; `config_dir` is the
/// directory of the settings.
pub fn check_first_run(config_dir: &str, state: FirstRunState, reply: Reply) -> (next: (
    FirstRunState,
    Step,
))
    ensures
        (next.0, next.1@) == first_run_step(config_dir@, state, reply@),
{
    match (state, reply) {
        (FirstRunState::Start, Reply::Start) => (
            FirstRunState::Probing,
            Step::just(Request::Exists(lang_file(config_dir))),
        ),
        (FirstRunState::Probing, Reply::Status(found)) => {
            if found {
                (FirstRunState::Finished, Step::just(Request::Done))
            } else {
                let menu = MenuSpec {
                    title: String::from_str(FIRST_RUN_TITLE),
                    items: lang_names_of(),
                    hint: String::from_str(FIRST_RUN_HINT),
                };
                (FirstRunState::ChoosingLang, Step::just(Request::Select(menu)))
            }
        },
        (FirstRunState::ChoosingLang, Reply::Selected(choice)) => {
            match choice {
                Some(index) => {
                    if index < 7 {
                        let all = langs();
                        let lang = all[index];
                        let texts = messages(lang);
                        let acts = set_lang(config_dir, lang.code());
                        let menu = MenuSpec {
                            title: String::from_str(texts.model_select),
                            items: model_items_of(None),
                            hint: String::from_str(texts.menu_hint),
                        };
                        (
                            FirstRunState::ChoosingModel(lang),
                            Step { acts, request: Request::Select(menu) },
                        )
                    } else {
                        (FirstRunState::Finished, Step::failure())
                    }
                },
                None => (FirstRunState::Finished, Step::just(Request::Exit(0))),
            }
        },
        (FirstRunState::ChoosingModel(lang), Reply::Selected(choice)) => {
            match choice {
                Some(index) => {
                    if index < MODEL_COUNT {
                        let texts = messages(lang);
                        let mut acts = set_model(config_dir, model_id_at(index));
                        let report = replace_first(texts.model_set, "%s", model_id_at(index));
                        push_say(&mut acts, success(report.as_str()));
                        push_say(&mut acts, String::new());
                        (FirstRunState::Finished, Step { acts, request: Request::Done })
                    } else {
                        (FirstRunState::Finished, Step::failure())
                    }
                },
                None => (FirstRunState::Finished, Step::just(Request::Exit(0))),
            }
        },
        _ => (FirstRunState::Finished, Step::failure()),
    }
}

} // verus!
