//! Where the settings are kept, and which language is in force.

use crate::flow::{act_views, push_act, Act, ActView, Request, RequestView};
use crate::i18n::{all_langs, langs, Lang};
use crate::text::{lemma_pieces_len, opt_view, pieces, same, split, strip, trim, CharClass};
use vstd::prelude::*;
use vstd::string::*;

verus! {

/// The language whose code is `code`, if there is one.
pub open spec fn lang_with_code(code: Seq<char>) -> Option<Lang> {
    if code == Lang::Ar.code_text() {
        Some(Lang::Ar)
    } else if code == Lang::En.code_text() {
        Some(Lang::En)
    } else if code == Lang::Es.code_text() {
        Some(Lang::Es)
    } else if code == Lang::Fr.code_text() {
        Some(Lang::Fr)
    } else if code == Lang::Ja.code_text() {
        Some(Lang::Ja)
    } else if code == Lang::Ru.code_text() {
        Some(Lang::Ru)
    } else if code == Lang::Zh.code_text() {
        Some(Lang::Zh)
    } else {
        None
    }
}

/// The language that `s` names: the one whose code is `s` without the
/// white space round it.
pub open spec fn parsed_lang(s: Seq<char>) -> Option<Lang> {
    lang_with_code(strip(s, CharClass::Space))
}

/// Every language is found again by its own code.
pub proof fn lemma_code_names_its_language(lang: Lang)
    ensures
        parsed_lang(lang.code_text()) == Some(lang),
        lang_with_code(lang.code_text()) == Some(lang),
{
    reveal_strlit("ar");
    reveal_strlit("en");
    reveal_strlit("es");
    reveal_strlit("fr");
    reveal_strlit("ja");
    reveal_strlit("ru");
    reveal_strlit("zh");
}

/// The language whose code is exactly `code`.
pub fn find_lang(code: &str) -> (lang: Option<Lang>)
    ensures
        lang == lang_with_code(code@),
{
    let all = langs();
    let mut i: usize = 0;
    while i < all.len()
        invariant
            i <= all.len(),
            all@ == all_langs(),
            forall|j: int| 0 <= j < i ==> all_langs()[j].code_text() != code@,
        decreases all.len() - i,
    {
        if same(all[i].code(), code) {
            return Some(all[i]);
        }
        i += 1;
    }
    None
}

/// Reads a language code; white space round it does not count.
pub fn parse_lang(s: &str) -> (lang: Option<Lang>)
    ensures
        lang == parsed_lang(s@),
{
    let code = trim(s);
    find_lang(code.as_str())
}

/// The language part of a locale name such as `ja_JP.UTF-8`: what stands
/// before the first `.` and, in that, before the first `_`.
pub open spec fn locale_lang(locale: Seq<char>) -> Seq<char> {
    pieces(pieces(locale, CharClass::Only('.'))[0], CharClass::Only('_'))[0]
}

/// The language that `setting` names, if it is set and names one.
pub open spec fn named_lang(setting: Option<Seq<char>>) -> Option<Lang> {
    match setting {
        Some(s) => parsed_lang(s),
        None => None,
    }
}

/// The language in force: the one that the tool's own variable names, else
/// the one saved in the settings, else the one of the locale, else English.
pub open spec fn resolved_lang(
    own: Option<Seq<char>>,
    saved: Option<Seq<char>>,
    locale: Option<Seq<char>>,
) -> Lang {
    if named_lang(own) is Some {
        named_lang(own)->0
    } else if named_lang(saved) is Some {
        named_lang(saved)->0
    } else if locale is Some && parsed_lang(locale_lang(locale->0)) is Some {
        parsed_lang(locale_lang(locale->0))->0
    } else {
        Lang::En
    }
}

/// The view of a string slice that may be missing.
pub open spec fn opt_str(s: Option<&str>) -> Option<Seq<char>> {
    match s {
        Some(s) => Some(s@),
        None => None,
    }
}

/// The part of `s` before the first `sep`.
fn first_piece(s: &str, sep: char) -> (piece: String)
    ensures
        piece@ == pieces(s@, CharClass::Only(sep))[0],
{
    let list = split(s, CharClass::Only(sep));
    proof {
        lemma_pieces_len(s@, CharClass::Only(sep));
    }
    list[0].clone()
}

/// Decides the language in force from the tool's own variable, the saved
/// setting and the locale, each as it was found or missing.
pub fn resolve_lang(own: Option<&str>, saved: Option<&str>, locale: Option<&str>) -> (lang: Lang)
    ensures
        lang == resolved_lang(opt_str(own), opt_str(saved), opt_str(locale)),
{
    if let Some(s) = own {
        if let Some(lang) = parse_lang(s) {
            return lang;
        }
    }
    if let Some(s) = saved {
        if let Some(lang) = parse_lang(s) {
            return lang;
        }
    }
    if let Some(s) = locale {
        let short = first_piece(s, '.');
        let short = first_piece(short.as_str(), '_');
        if let Some(lang) = parse_lang(short.as_str()) {
            return lang;
        }
    }
    Lang::En
}

/// `base` with the relative name `name` below it: a slash stands between
/// the two unless `base` is empty or ends in one.
pub open spec fn joined(base: Seq<char>, name: Seq<char>) -> Seq<char> {
    if base.len() == 0 || base.last() == '/' {
        base + name
    } else {
        base + "/"@ + name
    }
}

/// `base` with the relative name `name` below it.
pub fn join_path(base: &str, name: &str) -> (path: String)
    ensures
        path@ == joined(base@, name@),
{
    let v = crate::text::chars_of(base);
    let mut path = String::from_str(base);
    if v.len() > 0 && v[v.len() - 1] != '/' {
        path.append("/");
    }
    path.append(name);
    path
}

/// The directory of the settings: `shuu` below the directory that the
/// environment gives for configuration, else `.config/shuu` below the home
/// directory, and below `/tmp` where no home directory is known.
pub open spec fn config_dir_of(xdg: Option<Seq<char>>, home: Option<Seq<char>>) -> Seq<char> {
    match xdg {
        Some(dir) => joined(dir, "shuu"@),
        None => joined(
            joined(
                match home {
                    Some(dir) => dir,
                    None => "/tmp"@,
                },
                ".config"@,
            ),
            "shuu"@,
        ),
    }
}

/// The directory of the settings, given the configuration directory of the
/// environment and the home directory, each as it was found or missing.
pub fn config_dir_from(xdg: Option<&str>, home: Option<&str>) -> (dir: String)
    ensures
        dir@ == config_dir_of(opt_str(xdg), opt_str(home)),
{
    match xdg {
        Some(dir) => join_path(dir, "shuu"),
        None => {
            let base = match home {
                Some(dir) => dir,
                None => "/tmp",
            };
            let dir = join_path(base, ".config");
            join_path(dir.as_str(), "shuu")
        },
    }
}

/// `dirs::home_dir`: the home directory of the current user, from the
/// environment or the user database. Nothing is claimed of it.
#[verifier::external_body]
fn home_dir() -> Option<String> {
    match dirs::home_dir() {
        Some(path) => Some(path.to_string_lossy().into_owned()),
        None => None,
    }
}

/// The directory of the settings, given the configuration directory of the
/// environment, as it was found or missing. The home directory is looked
/// up only where it is needed.
pub fn config_dir(xdg: Option<&str>) -> (dir: String)
    ensures
        xdg is Some ==> dir@ == config_dir_of(opt_str(xdg), None),
        exists|home: Option<Seq<char>>| dir@ == config_dir_of(opt_str(xdg), home),
{
    match xdg {
        Some(_) => config_dir_from(xdg, None),
        None => {
            let home = home_dir();
            let dir = match &home {
                Some(path) => config_dir_from(None, Some(path.as_str())),
                None => config_dir_from(None, None),
            };
            dir
        },
    }
}

/// The file that holds the saved language code.
pub fn lang_file(dir: &str) -> (path: String)
    ensures
        path@ == joined(dir@, "lang"@),
{
    join_path(dir, "lang")
}

/// The file that holds the saved model.
pub fn model_file(dir: &str) -> (path: String)
    ensures
        path@ == joined(dir@, "model"@),
{
    join_path(dir, "model")
}

/// The request that reads the saved language code from the settings
/// directory `dir`.
pub fn get_lang(dir: &str) -> (request: Request)
    ensures
        request@ == RequestView::ReadFile(joined(dir@, "lang"@)),
{
    Request::ReadFile(lang_file(dir))
}

/// What saves `content` in `file` of the settings directory: the
/// directory is made if it is missing, then the file is written anew.
pub open spec fn saving(dir: Seq<char>, file: Seq<char>, content: Seq<char>) -> Seq<ActView> {
    seq![ActView::MakeDir(dir), ActView::WriteFile { path: joined(dir, file), content }]
}

/// What forgets the saved language and model: both files are removed.
pub open spec fn resetting(dir: Seq<char>) -> Seq<ActView> {
    seq![
        ActView::RemoveFile(joined(dir, "lang"@)),
        ActView::RemoveFile(joined(dir, "model"@)),
    ]
}

fn save(dir: &str, file: &str, content: &str) -> (acts: Vec<Act>)
    ensures
        act_views(acts@) == saving(dir@, file@, content@),
{
    let mut acts: Vec<Act> = Vec::new();
    push_act(&mut acts, Act::MakeDir(String::from_str(dir)));
    push_act(
        &mut acts,
        Act::WriteFile { path: join_path(dir, file), content: String::from_str(content) },
    );
    acts
}

/// What saves the language code `lang` in the settings directory `dir`.
pub fn set_lang(dir: &str, lang: &str) -> (acts: Vec<Act>)
    ensures
        act_views(acts@) == saving(dir@, "lang"@, lang@),
{
    save(dir, "lang", lang)
}

/// What saves the model `model` in the settings directory `dir`.
pub fn set_model(dir: &str, model: &str) -> (acts: Vec<Act>)
    ensures
        act_views(acts@) == saving(dir@, "model"@, model@),
{
    save(dir, "model", model)
}

/// What forgets the saved language and model.
pub fn reset(dir: &str) -> (acts: Vec<Act>)
    ensures
        act_views(acts@) == resetting(dir@),
{
    let mut acts: Vec<Act> = Vec::new();
    push_act(&mut acts, Act::RemoveFile(lang_file(dir)));
    push_act(&mut acts, Act::RemoveFile(model_file(dir)));
    acts
}

/// The saved model, given what its file holds, if it could be read: an
/// empty file names no model.
pub open spec fn saved_model(content: Option<Seq<char>>) -> Option<Seq<char>> {
    match content {
        Some(text) => if text.len() > 0 {
            Some(text)
        } else {
            None
        },
        None => None,
    }
}

/// The saved model, given what its file holds, if it could be read.
pub fn get_model(content: Option<String>) -> (model: Option<String>)
    ensures
        opt_view(model) == saved_model(opt_view(content)),
{
    match content {
        Some(text) => if text.as_str().is_empty() {
            None
        } else {
            Some(text)
        },
        None => None,
    }
}

} // verus!
