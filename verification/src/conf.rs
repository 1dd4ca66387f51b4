//! The persisted preferences record and its lifecycle: defaults, loading
//! with silent fallback, merge-and-revalidate amending, and stable pretty
//! printing.
use vstd::prelude::*;

use crate::json::{
    entries_view, entry_view, parse_text, parse_text_x, print_text, print_text_x, Json, JsonV,
    lemma_entries_view_index, lemma_parse_print_text,
};
use crate::utils::{chars_eq_str, chars_of, lower_of, lowercase, string_of, app_root};

verus! {

/// The persisted preferences record. Every field has a default; a partial
/// or corrupt file never fails the caller.
pub struct AppConf {
    pub titlebar: bool,
    pub hide_dock_icon: bool,
    pub theme: String,
    pub auto_update: String,
    pub stay_on_top: bool,
    pub save_window_state: bool,
    pub global_shortcut: Option<String>,
    pub speech_lang: String,
    pub isinit: bool,
    pub popup_search: bool,
    pub main_close: bool,
    pub main_dashboard: bool,
    pub main_width: u64,
    pub main_height: u64,
    pub tray_width: u64,
    pub tray_height: u64,
    pub tray: bool,
    pub tray_dashboard: bool,
}

/// Mathematical value of the preferences record.
#[verifier::ext_equal]
pub struct AppConfV {
    pub titlebar: bool,
    pub hide_dock_icon: bool,
    pub theme: Seq<char>,
    pub auto_update: Seq<char>,
    pub stay_on_top: bool,
    pub save_window_state: bool,
    pub global_shortcut: Option<Seq<char>>,
    pub speech_lang: Seq<char>,
    pub isinit: bool,
    pub popup_search: bool,
    pub main_close: bool,
    pub main_dashboard: bool,
    pub main_width: u64,
    pub main_height: u64,
    pub tray_width: u64,
    pub tray_height: u64,
    pub tray: bool,
    pub tray_dashboard: bool,
}

impl View for AppConf {
    type V = AppConfV;

    open spec fn view(&self) -> AppConfV {
        AppConfV {
            titlebar: self.titlebar,
            hide_dock_icon: self.hide_dock_icon,
            theme: self.theme@,
            auto_update: self.auto_update@,
            stay_on_top: self.stay_on_top,
            save_window_state: self.save_window_state,
            global_shortcut: match &self.global_shortcut {
                Some(s) => Some(s@),
                None => None,
            },
            speech_lang: self.speech_lang@,
            isinit: self.isinit,
            popup_search: self.popup_search,
            main_close: self.main_close,
            main_dashboard: self.main_dashboard,
            main_width: self.main_width,
            main_height: self.main_height,
            tray_width: self.tray_width,
            tray_height: self.tray_height,
            tray: self.tray,
            tray_dashboard: self.tray_dashboard,
        }
    }
}

// The field keys of the configuration file, in their stable (sorted) order.
pub open spec fn key_auto_update() -> Seq<char> {
    "auto_update"@
}

pub open spec fn key_global_shortcut() -> Seq<char> {
    "global_shortcut"@
}

pub open spec fn key_hide_dock_icon() -> Seq<char> {
    "hide_dock_icon"@
}

pub open spec fn key_isinit() -> Seq<char> {
    "isinit"@
}

pub open spec fn key_main_close() -> Seq<char> {
    "main_close"@
}

pub open spec fn key_main_dashboard() -> Seq<char> {
    "main_dashboard"@
}

pub open spec fn key_main_height() -> Seq<char> {
    "main_height"@
}

pub open spec fn key_main_width() -> Seq<char> {
    "main_width"@
}

pub open spec fn key_popup_search() -> Seq<char> {
    "popup_search"@
}

pub open spec fn key_save_window_state() -> Seq<char> {
    "save_window_state"@
}

pub open spec fn key_speech_lang() -> Seq<char> {
    "speech_lang"@
}

pub open spec fn key_stay_on_top() -> Seq<char> {
    "stay_on_top"@
}

pub open spec fn key_theme() -> Seq<char> {
    "theme"@
}

pub open spec fn key_titlebar() -> Seq<char> {
    "titlebar"@
}

pub open spec fn key_tray() -> Seq<char> {
    "tray"@
}

pub open spec fn key_tray_dashboard() -> Seq<char> {
    "tray_dashboard"@
}

pub open spec fn key_tray_height() -> Seq<char> {
    "tray_height"@
}

pub open spec fn key_tray_width() -> Seq<char> {
    "tray_width"@
}

/// The all-defaults record.
pub open spec fn default_conf() -> AppConfV {
    AppConfV {
        titlebar: true,
        hide_dock_icon: false,
        theme: "light"@,
        auto_update: "prompt"@,
        stay_on_top: false,
        save_window_state: false,
        global_shortcut: None,
        speech_lang: Seq::empty(),
        isinit: true,
        popup_search: false,
        main_close: false,
        main_dashboard: false,
        main_width: 1440,
        main_height: 900,
        tray_width: 1440,
        tray_height: 900,
        tray: true,
        tray_dashboard: false,
    }
}

/// The entry at position `i` of the record's stable (sorted) key order.
pub open spec fn conf_entry(c: AppConfV, i: int) -> (Seq<char>, JsonV) {
    if i == 0 {
        (key_auto_update(), JsonV::Str(c.auto_update))
    } else if i == 1 {
        (
            key_global_shortcut(),
            match c.global_shortcut {
                Some(s) => JsonV::Str(s),
                None => JsonV::Null,
            },
        )
    } else if i == 2 {
        (key_hide_dock_icon(), JsonV::Bool(c.hide_dock_icon))
    } else if i == 3 {
        (key_isinit(), JsonV::Bool(c.isinit))
    } else if i == 4 {
        (key_main_close(), JsonV::Bool(c.main_close))
    } else if i == 5 {
        (key_main_dashboard(), JsonV::Bool(c.main_dashboard))
    } else if i == 6 {
        (key_main_height(), JsonV::Num(c.main_height))
    } else if i == 7 {
        (key_main_width(), JsonV::Num(c.main_width))
    } else if i == 8 {
        (key_popup_search(), JsonV::Bool(c.popup_search))
    } else if i == 9 {
        (key_save_window_state(), JsonV::Bool(c.save_window_state))
    } else if i == 10 {
        (key_speech_lang(), JsonV::Str(c.speech_lang))
    } else if i == 11 {
        (key_stay_on_top(), JsonV::Bool(c.stay_on_top))
    } else if i == 12 {
        (key_theme(), JsonV::Str(c.theme))
    } else if i == 13 {
        (key_titlebar(), JsonV::Bool(c.titlebar))
    } else if i == 14 {
        (key_tray(), JsonV::Bool(c.tray))
    } else if i == 15 {
        (key_tray_dashboard(), JsonV::Bool(c.tray_dashboard))
    } else if i == 16 {
        (key_tray_height(), JsonV::Num(c.tray_height))
    } else {
        (key_tray_width(), JsonV::Num(c.tray_width))
    }
}

/// The record as key/value entries, in stable sorted key order; this is
/// exactly what the configuration file holds.
pub open spec fn entries_of(c: AppConfV) -> Seq<(Seq<char>, JsonV)> {
    Seq::new(18, |i: int| conf_entry(c, i))
}

/// One entry laid over a record: a known key demands a value of its type,
/// an unknown key is ignored.
pub open spec fn apply_entry(c: AppConfV, k: Seq<char>, v: JsonV) -> Option<AppConfV> {
    if k == key_auto_update() {
        match v {
            JsonV::Str(s) => Some(AppConfV { auto_update: s, ..c }),
            _ => None,
        }
    } else if k == key_global_shortcut() {
        match v {
            JsonV::Str(s) => Some(AppConfV { global_shortcut: Some(s), ..c }),
            JsonV::Null => Some(AppConfV { global_shortcut: None, ..c }),
            _ => None,
        }
    } else if k == key_hide_dock_icon() {
        match v {
            JsonV::Bool(b) => Some(AppConfV { hide_dock_icon: b, ..c }),
            _ => None,
        }
    } else if k == key_isinit() {
        match v {
            JsonV::Bool(b) => Some(AppConfV { isinit: b, ..c }),
            _ => None,
        }
    } else if k == key_main_close() {
        match v {
            JsonV::Bool(b) => Some(AppConfV { main_close: b, ..c }),
            _ => None,
        }
    } else if k == key_main_dashboard() {
        match v {
            JsonV::Bool(b) => Some(AppConfV { main_dashboard: b, ..c }),
            _ => None,
        }
    } else if k == key_main_height() {
        match v {
            JsonV::Num(n) => Some(AppConfV { main_height: n, ..c }),
            _ => None,
        }
    } else if k == key_main_width() {
        match v {
            JsonV::Num(n) => Some(AppConfV { main_width: n, ..c }),
            _ => None,
        }
    } else if k == key_popup_search() {
        match v {
            JsonV::Bool(b) => Some(AppConfV { popup_search: b, ..c }),
            _ => None,
        }
    } else if k == key_save_window_state() {
        match v {
            JsonV::Bool(b) => Some(AppConfV { save_window_state: b, ..c }),
            _ => None,
        }
    } else if k == key_speech_lang() {
        match v {
            JsonV::Str(s) => Some(AppConfV { speech_lang: s, ..c }),
            _ => None,
        }
    } else if k == key_stay_on_top() {
        match v {
            JsonV::Bool(b) => Some(AppConfV { stay_on_top: b, ..c }),
            _ => None,
        }
    } else if k == key_theme() {
        match v {
            JsonV::Str(s) => Some(AppConfV { theme: s, ..c }),
            _ => None,
        }
    } else if k == key_titlebar() {
        match v {
            JsonV::Bool(b) => Some(AppConfV { titlebar: b, ..c }),
            _ => None,
        }
    } else if k == key_tray() {
        match v {
            JsonV::Bool(b) => Some(AppConfV { tray: b, ..c }),
            _ => None,
        }
    } else if k == key_tray_dashboard() {
        match v {
            JsonV::Bool(b) => Some(AppConfV { tray_dashboard: b, ..c }),
            _ => None,
        }
    } else if k == key_tray_height() {
        match v {
            JsonV::Num(n) => Some(AppConfV { tray_height: n, ..c }),
            _ => None,
        }
    } else if k == key_tray_width() {
        match v {
            JsonV::Num(n) => Some(AppConfV { tray_width: n, ..c }),
            _ => None,
        }
    } else {
        Some(c)
    }
}

/// Entries laid over a record in order; any ill-typed known key fails the
/// whole overlay.
pub open spec fn spec_validate(c: AppConfV, es: Seq<(Seq<char>, JsonV)>) -> Option<AppConfV>
    decreases es.len(),
{
    if es.len() == 0 {
        Some(c)
    } else {
        match apply_entry(c, es[0].0, es[0].1) {
            Some(c2) => spec_validate(c2, es.drop_first()),
            None => None,
        }
    }
}

/// Merge-and-revalidate: the patch wins where it validates, else the
/// record stays unchanged.
pub open spec fn spec_amend(c: AppConfV, p: Seq<(Seq<char>, JsonV)>) -> AppConfV {
    match spec_validate(c, p) {
        Some(c2) => c2,
        None => c,
    }
}

/// What loading yields for a given file text; `None` stands for a missing
/// or unreadable file.
pub open spec fn conf_of_text(t: Option<Seq<char>>) -> AppConfV {
    match t {
        None => default_conf(),
        Some(s) => match parse_text(s) {
            None => default_conf(),
            Some(es) => match spec_validate(default_conf(), es) {
                Some(c) => c,
                None => default_conf(),
            },
        },
    }
}

/// The record's stable pretty-printed file text.
pub open spec fn conf_to_text(c: AppConfV) -> Seq<char> {
    print_text(entries_of(c))
}

impl AppConf {
    /// The all-defaults record.
    pub fn new() -> (r: AppConf)
        ensures
            r@ == default_conf(),
    {
        let r = AppConf {
            titlebar: true,
            hide_dock_icon: false,
            theme: "light".to_owned(),
            auto_update: "prompt".to_owned(),
            stay_on_top: false,
            save_window_state: false,
            global_shortcut: None,
            speech_lang: String::new(),
            isinit: true,
            popup_search: false,
            main_close: false,
            main_dashboard: false,
            main_width: 1440,
            main_height: 900,
            tray_width: 1440,
            tray_height: 900,
            tray: true,
            tray_dashboard: false,
        };
        r
    }

    /// A copy with the same mathematical value.
    pub fn duplicate(&self) -> (r: AppConf)
        ensures
            r@ == self@,
    {
        AppConf {
            titlebar: self.titlebar,
            hide_dock_icon: self.hide_dock_icon,
            theme: self.theme.clone(),
            auto_update: self.auto_update.clone(),
            stay_on_top: self.stay_on_top,
            save_window_state: self.save_window_state,
            global_shortcut: match &self.global_shortcut {
                Some(s) => Some(s.clone()),
                None => None,
            },
            speech_lang: self.speech_lang.clone(),
            isinit: self.isinit,
            popup_search: self.popup_search,
            main_close: self.main_close,
            main_dashboard: self.main_dashboard,
            main_width: self.main_width,
            main_height: self.main_height,
            tray_width: self.tray_width,
            tray_height: self.tray_height,
            tray: self.tray,
            tray_dashboard: self.tray_dashboard,
        }
    }

    /// Where the configuration file lives under the given home directory.
    pub fn file_path(home: &str) -> (r: String)
        ensures
            r@ == home@ + "/.jsonEditor"@ + "/editor.conf.json"@,
    {
        let root = app_root(home);
        let mut out = chars_of(root.as_str());
        crate::utils::append_str(&mut out, "/editor.conf.json");
        string_of(&out)
    }

    /// The record as key/value entries, in stable sorted key order.
    #[verifier::rlimit(100)]
    pub fn entries(&self) -> (r: Vec<(Vec<char>, Json)>)
        ensures
            entries_view(r@) == entries_of(self@),
    {
        let mut r: Vec<(Vec<char>, Json)> = Vec::new();
        r.push((chars_of("auto_update"), Json::Str(chars_of(self.auto_update.as_str()))));
        r.push(
            (
                chars_of("global_shortcut"),
                match &self.global_shortcut {
                    Some(s) => Json::Str(chars_of(s.as_str())),
                    None => Json::Null,
                },
            ),
        );
        r.push((chars_of("hide_dock_icon"), Json::Bool(self.hide_dock_icon)));
        r.push((chars_of("isinit"), Json::Bool(self.isinit)));
        r.push((chars_of("main_close"), Json::Bool(self.main_close)));
        r.push((chars_of("main_dashboard"), Json::Bool(self.main_dashboard)));
        r.push((chars_of("main_height"), Json::Num(self.main_height)));
        r.push((chars_of("main_width"), Json::Num(self.main_width)));
        r.push((chars_of("popup_search"), Json::Bool(self.popup_search)));
        r.push((chars_of("save_window_state"), Json::Bool(self.save_window_state)));
        r.push((chars_of("speech_lang"), Json::Str(chars_of(self.speech_lang.as_str()))));
        r.push((chars_of("stay_on_top"), Json::Bool(self.stay_on_top)));
        r.push((chars_of("theme"), Json::Str(chars_of(self.theme.as_str()))));
        r.push((chars_of("titlebar"), Json::Bool(self.titlebar)));
        r.push((chars_of("tray"), Json::Bool(self.tray)));
        r.push((chars_of("tray_dashboard"), Json::Bool(self.tray_dashboard)));
        r.push((chars_of("tray_height"), Json::Num(self.tray_height)));
        r.push((chars_of("tray_width"), Json::Num(self.tray_width)));
        proof {
            lemma_entries_view_index(r@);
            assert(r@.len() == 18);
            let ev = entries_of(self@);
            assert(entry_view(r@[0]) == ev[0]);
            assert(entry_view(r@[1]) == ev[1]);
            assert(entry_view(r@[2]) == ev[2]);
            assert(entry_view(r@[3]) == ev[3]);
            assert(entry_view(r@[4]) == ev[4]);
            assert(entry_view(r@[5]) == ev[5]);
            assert(entry_view(r@[6]) == ev[6]);
            assert(entry_view(r@[7]) == ev[7]);
            assert(entry_view(r@[8]) == ev[8]);
            assert(entry_view(r@[9]) == ev[9]);
            assert(entry_view(r@[10]) == ev[10]);
            assert(entry_view(r@[11]) == ev[11]);
            assert(entry_view(r@[12]) == ev[12]);
            assert(entry_view(r@[13]) == ev[13]);
            assert(entry_view(r@[14]) == ev[14]);
            assert(entry_view(r@[15]) == ev[15]);
            assert(entry_view(r@[16]) == ev[16]);
            assert(entry_view(r@[17]) == ev[17]);
            assert(entries_view(r@) =~= entries_of(self@));
        }
        r
    }

    /// Loads a record from file text; a missing, malformed, or ill-typed
    /// file falls back to the defaults and never fails the caller.
    pub fn read(text: Option<&str>) -> (r: AppConf)
        ensures
            r@ == conf_of_text(
                match text {
                    Some(s) => Some(s@),
                    None => None,
                },
            ),
    {
        match text {
            None => AppConf::new(),
            Some(s) => {
                let cs = chars_of(s);
                match parse_text_x(&cs) {
                    None => AppConf::new(),
                    Some(es) => match validate(AppConf::new(), &es) {
                        Some(c) => c,
                        None => AppConf::new(),
                    },
                }
            },
        }
    }

    /// Serializes the record to its stable pretty file text.
    pub fn write(&self) -> (r: String)
        ensures
            r@ == conf_to_text(self@),
    {
        let es = self.entries();
        let cs = print_text_x(&es);
        string_of(&cs)
    }

    /// Lays a partial patch over the record; the patch wins where the
    /// merged record validates, else the record comes back unchanged.
    pub fn amend(self, patch: &Vec<(Vec<char>, Json)>) -> (r: AppConf)
        ensures
            r@ == spec_amend(self@, entries_view(patch@)),
    {
        let saved = self.duplicate();
        match validate(self, patch) {
            Some(c2) => c2,
            None => saved,
        }
    }
}

impl Default for AppConf {
    fn default() -> (r: AppConf)
        ensures
            r@ == default_conf(),
    {
        AppConf::new()
    }
}

/// One entry laid over a record; mirrors `apply_entry`.
#[verifier::rlimit(100)]
fn apply_entry_x(c: AppConf, k: &Vec<char>, v: &Json) -> (r: Option<AppConf>)
    ensures
        match r {
            Some(c2) => apply_entry(c@, k@, v@) == Some(c2@),
            None => apply_entry(c@, k@, v@) is None,
        },
{
    if chars_eq_str(k, "auto_update") {
        match v {
            Json::Str(s) => Some(AppConf { auto_update: string_of(s), ..c }),
            _ => None,
        }
    } else if chars_eq_str(k, "global_shortcut") {
        match v {
            Json::Str(s) => Some(AppConf { global_shortcut: Some(string_of(s)), ..c }),
            Json::Null => Some(AppConf { global_shortcut: None, ..c }),
            _ => None,
        }
    } else if chars_eq_str(k, "hide_dock_icon") {
        match v {
            Json::Bool(b) => Some(AppConf { hide_dock_icon: *b, ..c }),
            _ => None,
        }
    } else if chars_eq_str(k, "isinit") {
        match v {
            Json::Bool(b) => Some(AppConf { isinit: *b, ..c }),
            _ => None,
        }
    } else if chars_eq_str(k, "main_close") {
        match v {
            Json::Bool(b) => Some(AppConf { main_close: *b, ..c }),
            _ => None,
        }
    } else if chars_eq_str(k, "main_dashboard") {
        match v {
            Json::Bool(b) => Some(AppConf { main_dashboard: *b, ..c }),
            _ => None,
        }
    } else if chars_eq_str(k, "main_height") {
        match v {
            Json::Num(n) => Some(AppConf { main_height: *n, ..c }),
            _ => None,
        }
    } else if chars_eq_str(k, "main_width") {
        match v {
            Json::Num(n) => Some(AppConf { main_width: *n, ..c }),
            _ => None,
        }
    } else if chars_eq_str(k, "popup_search") {
        match v {
            Json::Bool(b) => Some(AppConf { popup_search: *b, ..c }),
            _ => None,
        }
    } else if chars_eq_str(k, "save_window_state") {
        match v {
            Json::Bool(b) => Some(AppConf { save_window_state: *b, ..c }),
            _ => None,
        }
    } else if chars_eq_str(k, "speech_lang") {
        match v {
            Json::Str(s) => Some(AppConf { speech_lang: string_of(s), ..c }),
            _ => None,
        }
    } else if chars_eq_str(k, "stay_on_top") {
        match v {
            Json::Bool(b) => Some(AppConf { stay_on_top: *b, ..c }),
            _ => None,
        }
    } else if chars_eq_str(k, "theme") {
        match v {
            Json::Str(s) => Some(AppConf { theme: string_of(s), ..c }),
            _ => None,
        }
    } else if chars_eq_str(k, "titlebar") {
        match v {
            Json::Bool(b) => Some(AppConf { titlebar: *b, ..c }),
            _ => None,
        }
    } else if chars_eq_str(k, "tray") {
        match v {
            Json::Bool(b) => Some(AppConf { tray: *b, ..c }),
            _ => None,
        }
    } else if chars_eq_str(k, "tray_dashboard") {
        match v {
            Json::Bool(b) => Some(AppConf { tray_dashboard: *b, ..c }),
            _ => None,
        }
    } else if chars_eq_str(k, "tray_height") {
        match v {
            Json::Num(n) => Some(AppConf { tray_height: *n, ..c }),
            _ => None,
        }
    } else if chars_eq_str(k, "tray_width") {
        match v {
            Json::Num(n) => Some(AppConf { tray_width: *n, ..c }),
            _ => None,
        }
    } else {
        Some(c)
    }
}

/// Entries laid over a record in order; mirrors `spec_validate`.
pub fn validate(c: AppConf, es: &Vec<(Vec<char>, Json)>) -> (r: Option<AppConf>)
    ensures
        match r {
            Some(c2) => spec_validate(c@, entries_view(es@)) == Some(c2@),
            None => spec_validate(c@, entries_view(es@)) is None,
        },
{
    proof {
        lemma_entries_view_index(es@);
    }
    let ghost full = entries_view(es@);
    proof {
        assert(full.subrange(0, full.len() as int) =~= full);
    }
    let mut cur = c;
    let mut i: usize = 0;
    while i < es.len()
        invariant
            i <= es@.len(),
            full == entries_view(es@),
            full.len() == es@.len(),
            forall|k: int| 0 <= k < es@.len() ==> full[k] == entry_view(#[trigger] es@[k]),
            spec_validate(c@, full) == spec_validate(cur@, full.subrange(i as int, full.len() as int)),
        decreases es@.len() - i,
    {
        let ghost cur0 = cur@;
        let e = &es[i];
        let next = match apply_entry_x(cur, &e.0, &e.1) {
            Some(c2) => c2,
            None => {
                return None;
            },
        };
        proof {
            let rest = full.subrange(i as int, full.len() as int);
            assert(rest[0] == full[i as int]);
            assert(rest.drop_first() =~= full.subrange(i as int + 1, full.len() as int));
            assert(spec_validate(cur0, rest) == spec_validate(
                next@,
                full.subrange(i as int + 1, full.len() as int),
            ));
        }
        cur = next;
        i = i + 1;
    }
    proof {
        assert(full.subrange(es@.len() as int, full.len() as int) =~= Seq::<(Seq<char>,
            JsonV)>::empty());
    }
    Some(cur)
}


// ---------- laws of the configuration lifecycle ----------

/// The value carried by the last patch entry with key `k`, if any.
pub open spec fn last_val(p: Seq<(Seq<char>, JsonV)>, k: Seq<char>) -> Option<JsonV>
    decreases p.len(),
{
    if p.len() == 0 {
        None
    } else {
        match last_val(p.drop_first(), k) {
            Some(v) => Some(v),
            None => if p[0].0 == k {
                Some(p[0].1)
            } else {
                None
            },
        }
    }
}


/// The configuration keys are pairwise distinct.
proof fn lemma_key_facts()
    ensures
        key_auto_update() != key_global_shortcut(),
        key_auto_update() != key_hide_dock_icon(),
        key_auto_update() != key_isinit(),
        key_auto_update() != key_main_close(),
        key_auto_update() != key_main_dashboard(),
        key_auto_update() != key_main_height(),
        key_auto_update() != key_main_width(),
        key_auto_update() != key_popup_search(),
        key_auto_update() != key_save_window_state(),
        key_auto_update() != key_speech_lang(),
        key_auto_update() != key_stay_on_top(),
        key_auto_update() != key_theme(),
        key_auto_update() != key_titlebar(),
        key_auto_update() != key_tray(),
        key_auto_update() != key_tray_dashboard(),
        key_auto_update() != key_tray_height(),
        key_auto_update() != key_tray_width(),
        key_global_shortcut() != key_hide_dock_icon(),
        key_global_shortcut() != key_isinit(),
        key_global_shortcut() != key_main_close(),
        key_global_shortcut() != key_main_dashboard(),
        key_global_shortcut() != key_main_height(),
        key_global_shortcut() != key_main_width(),
        key_global_shortcut() != key_popup_search(),
        key_global_shortcut() != key_save_window_state(),
        key_global_shortcut() != key_speech_lang(),
        key_global_shortcut() != key_stay_on_top(),
        key_global_shortcut() != key_theme(),
        key_global_shortcut() != key_titlebar(),
        key_global_shortcut() != key_tray(),
        key_global_shortcut() != key_tray_dashboard(),
        key_global_shortcut() != key_tray_height(),
        key_global_shortcut() != key_tray_width(),
        key_hide_dock_icon() != key_isinit(),
        key_hide_dock_icon() != key_main_close(),
        key_hide_dock_icon() != key_main_dashboard(),
        key_hide_dock_icon() != key_main_height(),
        key_hide_dock_icon() != key_main_width(),
        key_hide_dock_icon() != key_popup_search(),
        key_hide_dock_icon() != key_save_window_state(),
        key_hide_dock_icon() != key_speech_lang(),
        key_hide_dock_icon() != key_stay_on_top(),
        key_hide_dock_icon() != key_theme(),
        key_hide_dock_icon() != key_titlebar(),
        key_hide_dock_icon() != key_tray(),
        key_hide_dock_icon() != key_tray_dashboard(),
        key_hide_dock_icon() != key_tray_height(),
        key_hide_dock_icon() != key_tray_width(),
        key_isinit() != key_main_close(),
        key_isinit() != key_main_dashboard(),
        key_isinit() != key_main_height(),
        key_isinit() != key_main_width(),
        key_isinit() != key_popup_search(),
        key_isinit() != key_save_window_state(),
        key_isinit() != key_speech_lang(),
        key_isinit() != key_stay_on_top(),
        key_isinit() != key_theme(),
        key_isinit() != key_titlebar(),
        key_isinit() != key_tray(),
        key_isinit() != key_tray_dashboard(),
        key_isinit() != key_tray_height(),
        key_isinit() != key_tray_width(),
        key_main_close() != key_main_dashboard(),
        key_main_close() != key_main_height(),
        key_main_close() != key_main_width(),
        key_main_close() != key_popup_search(),
        key_main_close() != key_save_window_state(),
        key_main_close() != key_speech_lang(),
        key_main_close() != key_stay_on_top(),
        key_main_close() != key_theme(),
        key_main_close() != key_titlebar(),
        key_main_close() != key_tray(),
        key_main_close() != key_tray_dashboard(),
        key_main_close() != key_tray_height(),
        key_main_close() != key_tray_width(),
        key_main_dashboard() != key_main_height(),
        key_main_dashboard() != key_main_width(),
        key_main_dashboard() != key_popup_search(),
        key_main_dashboard() != key_save_window_state(),
        key_main_dashboard() != key_speech_lang(),
        key_main_dashboard() != key_stay_on_top(),
        key_main_dashboard() != key_theme(),
        key_main_dashboard() != key_titlebar(),
        key_main_dashboard() != key_tray(),
        key_main_dashboard() != key_tray_dashboard(),
        key_main_dashboard() != key_tray_height(),
        key_main_dashboard() != key_tray_width(),
        key_main_height() != key_main_width(),
        key_main_height() != key_popup_search(),
        key_main_height() != key_save_window_state(),
        key_main_height() != key_speech_lang(),
        key_main_height() != key_stay_on_top(),
        key_main_height() != key_theme(),
        key_main_height() != key_titlebar(),
        key_main_height() != key_tray(),
        key_main_height() != key_tray_dashboard(),
        key_main_height() != key_tray_height(),
        key_main_height() != key_tray_width(),
        key_main_width() != key_popup_search(),
        key_main_width() != key_save_window_state(),
        key_main_width() != key_speech_lang(),
        key_main_width() != key_stay_on_top(),
        key_main_width() != key_theme(),
        key_main_width() != key_titlebar(),
        key_main_width() != key_tray(),
        key_main_width() != key_tray_dashboard(),
        key_main_width() != key_tray_height(),
        key_main_width() != key_tray_width(),
        key_popup_search() != key_save_window_state(),
        key_popup_search() != key_speech_lang(),
        key_popup_search() != key_stay_on_top(),
        key_popup_search() != key_theme(),
        key_popup_search() != key_titlebar(),
        key_popup_search() != key_tray(),
        key_popup_search() != key_tray_dashboard(),
        key_popup_search() != key_tray_height(),
        key_popup_search() != key_tray_width(),
        key_save_window_state() != key_speech_lang(),
        key_save_window_state() != key_stay_on_top(),
        key_save_window_state() != key_theme(),
        key_save_window_state() != key_titlebar(),
        key_save_window_state() != key_tray(),
        key_save_window_state() != key_tray_dashboard(),
        key_save_window_state() != key_tray_height(),
        key_save_window_state() != key_tray_width(),
        key_speech_lang() != key_stay_on_top(),
        key_speech_lang() != key_theme(),
        key_speech_lang() != key_titlebar(),
        key_speech_lang() != key_tray(),
        key_speech_lang() != key_tray_dashboard(),
        key_speech_lang() != key_tray_height(),
        key_speech_lang() != key_tray_width(),
        key_stay_on_top() != key_theme(),
        key_stay_on_top() != key_titlebar(),
        key_stay_on_top() != key_tray(),
        key_stay_on_top() != key_tray_dashboard(),
        key_stay_on_top() != key_tray_height(),
        key_stay_on_top() != key_tray_width(),
        key_theme() != key_titlebar(),
        key_theme() != key_tray(),
        key_theme() != key_tray_dashboard(),
        key_theme() != key_tray_height(),
        key_theme() != key_tray_width(),
        key_titlebar() != key_tray(),
        key_titlebar() != key_tray_dashboard(),
        key_titlebar() != key_tray_height(),
        key_titlebar() != key_tray_width(),
        key_tray() != key_tray_dashboard(),
        key_tray() != key_tray_height(),
        key_tray() != key_tray_width(),
        key_tray_dashboard() != key_tray_height(),
        key_tray_dashboard() != key_tray_width(),
        key_tray_height() != key_tray_width(),
{
    reveal_strlit("auto_update");
    reveal_strlit("global_shortcut");
    reveal_strlit("hide_dock_icon");
    reveal_strlit("isinit");
    reveal_strlit("main_close");
    reveal_strlit("main_dashboard");
    reveal_strlit("main_height");
    reveal_strlit("main_width");
    reveal_strlit("popup_search");
    reveal_strlit("save_window_state");
    reveal_strlit("speech_lang");
    reveal_strlit("stay_on_top");
    reveal_strlit("theme");
    reveal_strlit("titlebar");
    reveal_strlit("tray");
    reveal_strlit("tray_dashboard");
    reveal_strlit("tray_height");
    reveal_strlit("tray_width");
    assert("auto_update"@.len() == 11);
    assert("global_shortcut"@.len() == 15);
    assert("hide_dock_icon"@.len() == 14);
    assert("isinit"@.len() == 6);
    assert("main_close"@.len() == 10);
    assert("main_dashboard"@.len() == 14);
    assert("main_height"@.len() == 11);
    assert("main_width"@.len() == 10);
    assert("popup_search"@.len() == 12);
    assert("save_window_state"@.len() == 17);
    assert("speech_lang"@.len() == 11);
    assert("stay_on_top"@.len() == 11);
    assert("theme"@.len() == 5);
    assert("titlebar"@.len() == 8);
    assert("tray"@.len() == 4);
    assert("tray_dashboard"@.len() == 14);
    assert("tray_height"@.len() == 11);
    assert("tray_width"@.len() == 10);
    assert(key_auto_update()[0] != key_main_height()[0]);
    assert(key_auto_update()[0] != key_speech_lang()[0]);
    assert(key_auto_update()[0] != key_stay_on_top()[0]);
    assert(key_auto_update()[0] != key_tray_height()[0]);
    assert(key_main_height()[0] != key_speech_lang()[0]);
    assert(key_main_height()[0] != key_stay_on_top()[0]);
    assert(key_main_height()[0] != key_tray_height()[0]);
    assert(key_speech_lang()[1] != key_stay_on_top()[1]);
    assert(key_speech_lang()[0] != key_tray_height()[0]);
    assert(key_stay_on_top()[0] != key_tray_height()[0]);
    assert(key_main_close()[5] != key_main_width()[5]);
    assert(key_main_close()[0] != key_tray_width()[0]);
    assert(key_main_width()[0] != key_tray_width()[0]);
    assert(key_hide_dock_icon()[0] != key_main_dashboard()[0]);
    assert(key_hide_dock_icon()[0] != key_tray_dashboard()[0]);
    assert(key_main_dashboard()[0] != key_tray_dashboard()[0]);
}

proof fn lemma_apply_entry_field_0(c: AppConfV, k: Seq<char>, v: JsonV, c2: AppConfV)
    requires
        apply_entry(c, k, v) == Some(c2),
    ensures
        (entries_of(c2)[0]).1 == (if entries_of(c)[0].0 == k {
            v
        } else {
            entries_of(c)[0].1
        }),
{
    lemma_key_facts();
}

proof fn lemma_apply_entry_field_1(c: AppConfV, k: Seq<char>, v: JsonV, c2: AppConfV)
    requires
        apply_entry(c, k, v) == Some(c2),
    ensures
        (entries_of(c2)[1]).1 == (if entries_of(c)[1].0 == k {
            v
        } else {
            entries_of(c)[1].1
        }),
{
    lemma_key_facts();
}

proof fn lemma_apply_entry_field_2(c: AppConfV, k: Seq<char>, v: JsonV, c2: AppConfV)
    requires
        apply_entry(c, k, v) == Some(c2),
    ensures
        (entries_of(c2)[2]).1 == (if entries_of(c)[2].0 == k {
            v
        } else {
            entries_of(c)[2].1
        }),
{
    lemma_key_facts();
}

proof fn lemma_apply_entry_field_3(c: AppConfV, k: Seq<char>, v: JsonV, c2: AppConfV)
    requires
        apply_entry(c, k, v) == Some(c2),
    ensures
        (entries_of(c2)[3]).1 == (if entries_of(c)[3].0 == k {
            v
        } else {
            entries_of(c)[3].1
        }),
{
    lemma_key_facts();
}

proof fn lemma_apply_entry_field_4(c: AppConfV, k: Seq<char>, v: JsonV, c2: AppConfV)
    requires
        apply_entry(c, k, v) == Some(c2),
    ensures
        (entries_of(c2)[4]).1 == (if entries_of(c)[4].0 == k {
            v
        } else {
            entries_of(c)[4].1
        }),
{
    lemma_key_facts();
}

proof fn lemma_apply_entry_field_5(c: AppConfV, k: Seq<char>, v: JsonV, c2: AppConfV)
    requires
        apply_entry(c, k, v) == Some(c2),
    ensures
        (entries_of(c2)[5]).1 == (if entries_of(c)[5].0 == k {
            v
        } else {
            entries_of(c)[5].1
        }),
{
    lemma_key_facts();
}

proof fn lemma_apply_entry_field_6(c: AppConfV, k: Seq<char>, v: JsonV, c2: AppConfV)
    requires
        apply_entry(c, k, v) == Some(c2),
    ensures
        (entries_of(c2)[6]).1 == (if entries_of(c)[6].0 == k {
            v
        } else {
            entries_of(c)[6].1
        }),
{
    lemma_key_facts();
}

proof fn lemma_apply_entry_field_7(c: AppConfV, k: Seq<char>, v: JsonV, c2: AppConfV)
    requires
        apply_entry(c, k, v) == Some(c2),
    ensures
        (entries_of(c2)[7]).1 == (if entries_of(c)[7].0 == k {
            v
        } else {
            entries_of(c)[7].1
        }),
{
    lemma_key_facts();
}

proof fn lemma_apply_entry_field_8(c: AppConfV, k: Seq<char>, v: JsonV, c2: AppConfV)
    requires
        apply_entry(c, k, v) == Some(c2),
    ensures
        (entries_of(c2)[8]).1 == (if entries_of(c)[8].0 == k {
            v
        } else {
            entries_of(c)[8].1
        }),
{
    lemma_key_facts();
}

proof fn lemma_apply_entry_field_9(c: AppConfV, k: Seq<char>, v: JsonV, c2: AppConfV)
    requires
        apply_entry(c, k, v) == Some(c2),
    ensures
        (entries_of(c2)[9]).1 == (if entries_of(c)[9].0 == k {
            v
        } else {
            entries_of(c)[9].1
        }),
{
    lemma_key_facts();
}

proof fn lemma_apply_entry_field_10(c: AppConfV, k: Seq<char>, v: JsonV, c2: AppConfV)
    requires
        apply_entry(c, k, v) == Some(c2),
    ensures
        (entries_of(c2)[10]).1 == (if entries_of(c)[10].0 == k {
            v
        } else {
            entries_of(c)[10].1
        }),
{
    lemma_key_facts();
}

proof fn lemma_apply_entry_field_11(c: AppConfV, k: Seq<char>, v: JsonV, c2: AppConfV)
    requires
        apply_entry(c, k, v) == Some(c2),
    ensures
        (entries_of(c2)[11]).1 == (if entries_of(c)[11].0 == k {
            v
        } else {
            entries_of(c)[11].1
        }),
{
    lemma_key_facts();
}

proof fn lemma_apply_entry_field_12(c: AppConfV, k: Seq<char>, v: JsonV, c2: AppConfV)
    requires
        apply_entry(c, k, v) == Some(c2),
    ensures
        (entries_of(c2)[12]).1 == (if entries_of(c)[12].0 == k {
            v
        } else {
            entries_of(c)[12].1
        }),
{
    lemma_key_facts();
}

proof fn lemma_apply_entry_field_13(c: AppConfV, k: Seq<char>, v: JsonV, c2: AppConfV)
    requires
        apply_entry(c, k, v) == Some(c2),
    ensures
        (entries_of(c2)[13]).1 == (if entries_of(c)[13].0 == k {
            v
        } else {
            entries_of(c)[13].1
        }),
{
    lemma_key_facts();
}

proof fn lemma_apply_entry_field_14(c: AppConfV, k: Seq<char>, v: JsonV, c2: AppConfV)
    requires
        apply_entry(c, k, v) == Some(c2),
    ensures
        (entries_of(c2)[14]).1 == (if entries_of(c)[14].0 == k {
            v
        } else {
            entries_of(c)[14].1
        }),
{
    lemma_key_facts();
}

proof fn lemma_apply_entry_field_15(c: AppConfV, k: Seq<char>, v: JsonV, c2: AppConfV)
    requires
        apply_entry(c, k, v) == Some(c2),
    ensures
        (entries_of(c2)[15]).1 == (if entries_of(c)[15].0 == k {
            v
        } else {
            entries_of(c)[15].1
        }),
{
    lemma_key_facts();
}

proof fn lemma_apply_entry_field_16(c: AppConfV, k: Seq<char>, v: JsonV, c2: AppConfV)
    requires
        apply_entry(c, k, v) == Some(c2),
    ensures
        (entries_of(c2)[16]).1 == (if entries_of(c)[16].0 == k {
            v
        } else {
            entries_of(c)[16].1
        }),
{
    lemma_key_facts();
}

proof fn lemma_apply_entry_field_17(c: AppConfV, k: Seq<char>, v: JsonV, c2: AppConfV)
    requires
        apply_entry(c, k, v) == Some(c2),
    ensures
        (entries_of(c2)[17]).1 == (if entries_of(c)[17].0 == k {
            v
        } else {
            entries_of(c)[17].1
        }),
{
    lemma_key_facts();
}

/// How one overlaid entry changes the record's entries: the keyed field
/// takes the entry's value, every other field keeps its value.
proof fn lemma_apply_entry_fields(c: AppConfV, k: Seq<char>, v: JsonV, c2: AppConfV)
    requires
        apply_entry(c, k, v) == Some(c2),
    ensures
        (entries_of(c2)[0]).1 == (if entries_of(c)[0].0 == k {
            v
        } else {
            entries_of(c)[0].1
        }),
        (entries_of(c2)[1]).1 == (if entries_of(c)[1].0 == k {
            v
        } else {
            entries_of(c)[1].1
        }),
        (entries_of(c2)[2]).1 == (if entries_of(c)[2].0 == k {
            v
        } else {
            entries_of(c)[2].1
        }),
        (entries_of(c2)[3]).1 == (if entries_of(c)[3].0 == k {
            v
        } else {
            entries_of(c)[3].1
        }),
        (entries_of(c2)[4]).1 == (if entries_of(c)[4].0 == k {
            v
        } else {
            entries_of(c)[4].1
        }),
        (entries_of(c2)[5]).1 == (if entries_of(c)[5].0 == k {
            v
        } else {
            entries_of(c)[5].1
        }),
        (entries_of(c2)[6]).1 == (if entries_of(c)[6].0 == k {
            v
        } else {
            entries_of(c)[6].1
        }),
        (entries_of(c2)[7]).1 == (if entries_of(c)[7].0 == k {
            v
        } else {
            entries_of(c)[7].1
        }),
        (entries_of(c2)[8]).1 == (if entries_of(c)[8].0 == k {
            v
        } else {
            entries_of(c)[8].1
        }),
        (entries_of(c2)[9]).1 == (if entries_of(c)[9].0 == k {
            v
        } else {
            entries_of(c)[9].1
        }),
        (entries_of(c2)[10]).1 == (if entries_of(c)[10].0 == k {
            v
        } else {
            entries_of(c)[10].1
        }),
        (entries_of(c2)[11]).1 == (if entries_of(c)[11].0 == k {
            v
        } else {
            entries_of(c)[11].1
        }),
        (entries_of(c2)[12]).1 == (if entries_of(c)[12].0 == k {
            v
        } else {
            entries_of(c)[12].1
        }),
        (entries_of(c2)[13]).1 == (if entries_of(c)[13].0 == k {
            v
        } else {
            entries_of(c)[13].1
        }),
        (entries_of(c2)[14]).1 == (if entries_of(c)[14].0 == k {
            v
        } else {
            entries_of(c)[14].1
        }),
        (entries_of(c2)[15]).1 == (if entries_of(c)[15].0 == k {
            v
        } else {
            entries_of(c)[15].1
        }),
        (entries_of(c2)[16]).1 == (if entries_of(c)[16].0 == k {
            v
        } else {
            entries_of(c)[16].1
        }),
        (entries_of(c2)[17]).1 == (if entries_of(c)[17].0 == k {
            v
        } else {
            entries_of(c)[17].1
        }),
{
    lemma_apply_entry_field_0(c, k, v, c2);
    lemma_apply_entry_field_1(c, k, v, c2);
    lemma_apply_entry_field_2(c, k, v, c2);
    lemma_apply_entry_field_3(c, k, v, c2);
    lemma_apply_entry_field_4(c, k, v, c2);
    lemma_apply_entry_field_5(c, k, v, c2);
    lemma_apply_entry_field_6(c, k, v, c2);
    lemma_apply_entry_field_7(c, k, v, c2);
    lemma_apply_entry_field_8(c, k, v, c2);
    lemma_apply_entry_field_9(c, k, v, c2);
    lemma_apply_entry_field_10(c, k, v, c2);
    lemma_apply_entry_field_11(c, k, v, c2);
    lemma_apply_entry_field_12(c, k, v, c2);
    lemma_apply_entry_field_13(c, k, v, c2);
    lemma_apply_entry_field_14(c, k, v, c2);
    lemma_apply_entry_field_15(c, k, v, c2);
    lemma_apply_entry_field_16(c, k, v, c2);
    lemma_apply_entry_field_17(c, k, v, c2);
}

/// Amending lays exactly the patch over the record, field by field: a
/// field keyed in the patch takes the patch's last value for it, every
/// other field keeps the base record's value — provided the overlay
/// validates; otherwise the record comes back unchanged.
#[verifier::rlimit(100)]
pub proof fn lemma_amend_fields(c: AppConfV, p: Seq<(Seq<char>, JsonV)>)
    ensures
        spec_validate(c, p) is None ==> spec_amend(c, p) == c,
        spec_validate(c, p) is Some ==> entries_of(spec_amend(c, p))[0].1 == (match last_val(
            p,
            entries_of(c)[0].0,
        ) {
            Some(v) => v,
            None => entries_of(c)[0].1,
        }),
        spec_validate(c, p) is Some ==> entries_of(spec_amend(c, p))[1].1 == (match last_val(
            p,
            entries_of(c)[1].0,
        ) {
            Some(v) => v,
            None => entries_of(c)[1].1,
        }),
        spec_validate(c, p) is Some ==> entries_of(spec_amend(c, p))[2].1 == (match last_val(
            p,
            entries_of(c)[2].0,
        ) {
            Some(v) => v,
            None => entries_of(c)[2].1,
        }),
        spec_validate(c, p) is Some ==> entries_of(spec_amend(c, p))[3].1 == (match last_val(
            p,
            entries_of(c)[3].0,
        ) {
            Some(v) => v,
            None => entries_of(c)[3].1,
        }),
        spec_validate(c, p) is Some ==> entries_of(spec_amend(c, p))[4].1 == (match last_val(
            p,
            entries_of(c)[4].0,
        ) {
            Some(v) => v,
            None => entries_of(c)[4].1,
        }),
        spec_validate(c, p) is Some ==> entries_of(spec_amend(c, p))[5].1 == (match last_val(
            p,
            entries_of(c)[5].0,
        ) {
            Some(v) => v,
            None => entries_of(c)[5].1,
        }),
        spec_validate(c, p) is Some ==> entries_of(spec_amend(c, p))[6].1 == (match last_val(
            p,
            entries_of(c)[6].0,
        ) {
            Some(v) => v,
            None => entries_of(c)[6].1,
        }),
        spec_validate(c, p) is Some ==> entries_of(spec_amend(c, p))[7].1 == (match last_val(
            p,
            entries_of(c)[7].0,
        ) {
            Some(v) => v,
            None => entries_of(c)[7].1,
        }),
        spec_validate(c, p) is Some ==> entries_of(spec_amend(c, p))[8].1 == (match last_val(
            p,
            entries_of(c)[8].0,
        ) {
            Some(v) => v,
            None => entries_of(c)[8].1,
        }),
        spec_validate(c, p) is Some ==> entries_of(spec_amend(c, p))[9].1 == (match last_val(
            p,
            entries_of(c)[9].0,
        ) {
            Some(v) => v,
            None => entries_of(c)[9].1,
        }),
        spec_validate(c, p) is Some ==> entries_of(spec_amend(c, p))[10].1 == (match last_val(
            p,
            entries_of(c)[10].0,
        ) {
            Some(v) => v,
            None => entries_of(c)[10].1,
        }),
        spec_validate(c, p) is Some ==> entries_of(spec_amend(c, p))[11].1 == (match last_val(
            p,
            entries_of(c)[11].0,
        ) {
            Some(v) => v,
            None => entries_of(c)[11].1,
        }),
        spec_validate(c, p) is Some ==> entries_of(spec_amend(c, p))[12].1 == (match last_val(
            p,
            entries_of(c)[12].0,
        ) {
            Some(v) => v,
            None => entries_of(c)[12].1,
        }),
        spec_validate(c, p) is Some ==> entries_of(spec_amend(c, p))[13].1 == (match last_val(
            p,
            entries_of(c)[13].0,
        ) {
            Some(v) => v,
            None => entries_of(c)[13].1,
        }),
        spec_validate(c, p) is Some ==> entries_of(spec_amend(c, p))[14].1 == (match last_val(
            p,
            entries_of(c)[14].0,
        ) {
            Some(v) => v,
            None => entries_of(c)[14].1,
        }),
        spec_validate(c, p) is Some ==> entries_of(spec_amend(c, p))[15].1 == (match last_val(
            p,
            entries_of(c)[15].0,
        ) {
            Some(v) => v,
            None => entries_of(c)[15].1,
        }),
        spec_validate(c, p) is Some ==> entries_of(spec_amend(c, p))[16].1 == (match last_val(
            p,
            entries_of(c)[16].0,
        ) {
            Some(v) => v,
            None => entries_of(c)[16].1,
        }),
        spec_validate(c, p) is Some ==> entries_of(spec_amend(c, p))[17].1 == (match last_val(
            p,
            entries_of(c)[17].0,
        ) {
            Some(v) => v,
            None => entries_of(c)[17].1,
        }),
    decreases p.len(),
{
    if spec_validate(c, p) is Some {
        if p.len() == 0 {
        } else {
            assert(apply_entry(c, p[0].0, p[0].1) is Some);
            let c2 = apply_entry(c, p[0].0, p[0].1)->0;
            lemma_apply_entry_fields(c, p[0].0, p[0].1, c2);
            lemma_amend_fields(c2, p.drop_first());
            assert(spec_validate(c2, p.drop_first()) is Some);
            assert(spec_amend(c, p) == spec_amend(c2, p.drop_first()));
        }
    }
}

proof fn lemma_validate_step_0(cpre: AppConfV, c: AppConfV)
    ensures
        apply_entry(cpre, entries_of(c)[0].0, entries_of(c)[0].1) == Some(
            (AppConfV { auto_update: c.auto_update, ..cpre }),
        ),
{
    lemma_key_facts();
}

proof fn lemma_validate_step_1(cpre: AppConfV, c: AppConfV)
    ensures
        apply_entry(cpre, entries_of(c)[1].0, entries_of(c)[1].1) == Some(
            (AppConfV { global_shortcut: c.global_shortcut, ..cpre }),
        ),
{
    lemma_key_facts();
}

proof fn lemma_validate_step_2(cpre: AppConfV, c: AppConfV)
    ensures
        apply_entry(cpre, entries_of(c)[2].0, entries_of(c)[2].1) == Some(
            (AppConfV { hide_dock_icon: c.hide_dock_icon, ..cpre }),
        ),
{
    lemma_key_facts();
}

proof fn lemma_validate_step_3(cpre: AppConfV, c: AppConfV)
    ensures
        apply_entry(cpre, entries_of(c)[3].0, entries_of(c)[3].1) == Some(
            (AppConfV { isinit: c.isinit, ..cpre }),
        ),
{
    lemma_key_facts();
}

proof fn lemma_validate_step_4(cpre: AppConfV, c: AppConfV)
    ensures
        apply_entry(cpre, entries_of(c)[4].0, entries_of(c)[4].1) == Some(
            (AppConfV { main_close: c.main_close, ..cpre }),
        ),
{
    lemma_key_facts();
}

proof fn lemma_validate_step_5(cpre: AppConfV, c: AppConfV)
    ensures
        apply_entry(cpre, entries_of(c)[5].0, entries_of(c)[5].1) == Some(
            (AppConfV { main_dashboard: c.main_dashboard, ..cpre }),
        ),
{
    lemma_key_facts();
}

proof fn lemma_validate_step_6(cpre: AppConfV, c: AppConfV)
    ensures
        apply_entry(cpre, entries_of(c)[6].0, entries_of(c)[6].1) == Some(
            (AppConfV { main_height: c.main_height, ..cpre }),
        ),
{
    lemma_key_facts();
}

proof fn lemma_validate_step_7(cpre: AppConfV, c: AppConfV)
    ensures
        apply_entry(cpre, entries_of(c)[7].0, entries_of(c)[7].1) == Some(
            (AppConfV { main_width: c.main_width, ..cpre }),
        ),
{
    lemma_key_facts();
}

proof fn lemma_validate_step_8(cpre: AppConfV, c: AppConfV)
    ensures
        apply_entry(cpre, entries_of(c)[8].0, entries_of(c)[8].1) == Some(
            (AppConfV { popup_search: c.popup_search, ..cpre }),
        ),
{
    lemma_key_facts();
}

proof fn lemma_validate_step_9(cpre: AppConfV, c: AppConfV)
    ensures
        apply_entry(cpre, entries_of(c)[9].0, entries_of(c)[9].1) == Some(
            (AppConfV { save_window_state: c.save_window_state, ..cpre }),
        ),
{
    lemma_key_facts();
}

proof fn lemma_validate_step_10(cpre: AppConfV, c: AppConfV)
    ensures
        apply_entry(cpre, entries_of(c)[10].0, entries_of(c)[10].1) == Some(
            (AppConfV { speech_lang: c.speech_lang, ..cpre }),
        ),
{
    lemma_key_facts();
}

proof fn lemma_validate_step_11(cpre: AppConfV, c: AppConfV)
    ensures
        apply_entry(cpre, entries_of(c)[11].0, entries_of(c)[11].1) == Some(
            (AppConfV { stay_on_top: c.stay_on_top, ..cpre }),
        ),
{
    lemma_key_facts();
}

proof fn lemma_validate_step_12(cpre: AppConfV, c: AppConfV)
    ensures
        apply_entry(cpre, entries_of(c)[12].0, entries_of(c)[12].1) == Some(
            (AppConfV { theme: c.theme, ..cpre }),
        ),
{
    lemma_key_facts();
}

proof fn lemma_validate_step_13(cpre: AppConfV, c: AppConfV)
    ensures
        apply_entry(cpre, entries_of(c)[13].0, entries_of(c)[13].1) == Some(
            (AppConfV { titlebar: c.titlebar, ..cpre }),
        ),
{
    lemma_key_facts();
}

proof fn lemma_validate_step_14(cpre: AppConfV, c: AppConfV)
    ensures
        apply_entry(cpre, entries_of(c)[14].0, entries_of(c)[14].1) == Some(
            (AppConfV { tray: c.tray, ..cpre }),
        ),
{
    lemma_key_facts();
}

proof fn lemma_validate_step_15(cpre: AppConfV, c: AppConfV)
    ensures
        apply_entry(cpre, entries_of(c)[15].0, entries_of(c)[15].1) == Some(
            (AppConfV { tray_dashboard: c.tray_dashboard, ..cpre }),
        ),
{
    lemma_key_facts();
}

proof fn lemma_validate_step_16(cpre: AppConfV, c: AppConfV)
    ensures
        apply_entry(cpre, entries_of(c)[16].0, entries_of(c)[16].1) == Some(
            (AppConfV { tray_height: c.tray_height, ..cpre }),
        ),
{
    lemma_key_facts();
}

proof fn lemma_validate_step_17(cpre: AppConfV, c: AppConfV)
    ensures
        apply_entry(cpre, entries_of(c)[17].0, entries_of(c)[17].1) == Some(
            (AppConfV { tray_width: c.tray_width, ..cpre }),
        ),
{
    lemma_key_facts();
}

proof fn lemma_validate_span_0(cpre: AppConfV, c: AppConfV)
    ensures
        spec_validate(cpre, entries_of(c).subrange(0, 18)) == spec_validate(
            (AppConfV { auto_update: c.auto_update, global_shortcut: c.global_shortcut, hide_dock_icon: c.hide_dock_icon, isinit: c.isinit, main_close: c.main_close, main_dashboard: c.main_dashboard, ..cpre }),
            entries_of(c).subrange(6, 18),
        ),
{
    lemma_key_facts();
    let es = entries_of(c);
    let c1 = AppConfV { auto_update: c.auto_update, ..cpre };
    let c2 = AppConfV { global_shortcut: c.global_shortcut, ..c1 };
    let c3 = AppConfV { hide_dock_icon: c.hide_dock_icon, ..c2 };
    let c4 = AppConfV { isinit: c.isinit, ..c3 };
    let c5 = AppConfV { main_close: c.main_close, ..c4 };
    let c6 = AppConfV { main_dashboard: c.main_dashboard, ..c5 };
    let t0 = es.subrange(0, 18);
    let t1 = es.subrange(1, 18);
    let t2 = es.subrange(2, 18);
    let t3 = es.subrange(3, 18);
    let t4 = es.subrange(4, 18);
    let t5 = es.subrange(5, 18);
    let t6 = es.subrange(6, 18);
    lemma_validate_step_0(cpre, c);
    assert(t0[0] == es[0]);
    assert(t0.drop_first() =~= t1);
    assert(spec_validate(cpre, t0) == spec_validate(c1, t1));
    lemma_validate_step_1(c1, c);
    assert(t1[0] == es[1]);
    assert(t1.drop_first() =~= t2);
    assert(spec_validate(c1, t1) == spec_validate(c2, t2));
    lemma_validate_step_2(c2, c);
    assert(t2[0] == es[2]);
    assert(t2.drop_first() =~= t3);
    assert(spec_validate(c2, t2) == spec_validate(c3, t3));
    lemma_validate_step_3(c3, c);
    assert(t3[0] == es[3]);
    assert(t3.drop_first() =~= t4);
    assert(spec_validate(c3, t3) == spec_validate(c4, t4));
    lemma_validate_step_4(c4, c);
    assert(t4[0] == es[4]);
    assert(t4.drop_first() =~= t5);
    assert(spec_validate(c4, t4) == spec_validate(c5, t5));
    lemma_validate_step_5(c5, c);
    assert(t5[0] == es[5]);
    assert(t5.drop_first() =~= t6);
    assert(spec_validate(c5, t5) == spec_validate(c6, t6));
    assert(c6 =~= (AppConfV { auto_update: c.auto_update, global_shortcut: c.global_shortcut, hide_dock_icon: c.hide_dock_icon, isinit: c.isinit, main_close: c.main_close, main_dashboard: c.main_dashboard, ..cpre }));
}

proof fn lemma_validate_span_1(cpre: AppConfV, c: AppConfV)
    ensures
        spec_validate(cpre, entries_of(c).subrange(6, 18)) == spec_validate(
            (AppConfV { main_height: c.main_height, main_width: c.main_width, popup_search: c.popup_search, save_window_state: c.save_window_state, speech_lang: c.speech_lang, stay_on_top: c.stay_on_top, ..cpre }),
            entries_of(c).subrange(12, 18),
        ),
{
    lemma_key_facts();
    let es = entries_of(c);
    let c1 = AppConfV { main_height: c.main_height, ..cpre };
    let c2 = AppConfV { main_width: c.main_width, ..c1 };
    let c3 = AppConfV { popup_search: c.popup_search, ..c2 };
    let c4 = AppConfV { save_window_state: c.save_window_state, ..c3 };
    let c5 = AppConfV { speech_lang: c.speech_lang, ..c4 };
    let c6 = AppConfV { stay_on_top: c.stay_on_top, ..c5 };
    let t0 = es.subrange(6, 18);
    let t1 = es.subrange(7, 18);
    let t2 = es.subrange(8, 18);
    let t3 = es.subrange(9, 18);
    let t4 = es.subrange(10, 18);
    let t5 = es.subrange(11, 18);
    let t6 = es.subrange(12, 18);
    lemma_validate_step_6(cpre, c);
    assert(t0[0] == es[6]);
    assert(t0.drop_first() =~= t1);
    assert(spec_validate(cpre, t0) == spec_validate(c1, t1));
    lemma_validate_step_7(c1, c);
    assert(t1[0] == es[7]);
    assert(t1.drop_first() =~= t2);
    assert(spec_validate(c1, t1) == spec_validate(c2, t2));
    lemma_validate_step_8(c2, c);
    assert(t2[0] == es[8]);
    assert(t2.drop_first() =~= t3);
    assert(spec_validate(c2, t2) == spec_validate(c3, t3));
    lemma_validate_step_9(c3, c);
    assert(t3[0] == es[9]);
    assert(t3.drop_first() =~= t4);
    assert(spec_validate(c3, t3) == spec_validate(c4, t4));
    lemma_validate_step_10(c4, c);
    assert(t4[0] == es[10]);
    assert(t4.drop_first() =~= t5);
    assert(spec_validate(c4, t4) == spec_validate(c5, t5));
    lemma_validate_step_11(c5, c);
    assert(t5[0] == es[11]);
    assert(t5.drop_first() =~= t6);
    assert(spec_validate(c5, t5) == spec_validate(c6, t6));
    assert(c6 =~= (AppConfV { main_height: c.main_height, main_width: c.main_width, popup_search: c.popup_search, save_window_state: c.save_window_state, speech_lang: c.speech_lang, stay_on_top: c.stay_on_top, ..cpre }));
}

proof fn lemma_validate_span_2(cpre: AppConfV, c: AppConfV)
    ensures
        spec_validate(cpre, entries_of(c).subrange(12, 18)) == spec_validate(
            (AppConfV { theme: c.theme, titlebar: c.titlebar, tray: c.tray, tray_dashboard: c.tray_dashboard, tray_height: c.tray_height, tray_width: c.tray_width, ..cpre }),
            entries_of(c).subrange(18, 18),
        ),
{
    lemma_key_facts();
    let es = entries_of(c);
    let c1 = AppConfV { theme: c.theme, ..cpre };
    let c2 = AppConfV { titlebar: c.titlebar, ..c1 };
    let c3 = AppConfV { tray: c.tray, ..c2 };
    let c4 = AppConfV { tray_dashboard: c.tray_dashboard, ..c3 };
    let c5 = AppConfV { tray_height: c.tray_height, ..c4 };
    let c6 = AppConfV { tray_width: c.tray_width, ..c5 };
    let t0 = es.subrange(12, 18);
    let t1 = es.subrange(13, 18);
    let t2 = es.subrange(14, 18);
    let t3 = es.subrange(15, 18);
    let t4 = es.subrange(16, 18);
    let t5 = es.subrange(17, 18);
    let t6 = es.subrange(18, 18);
    lemma_validate_step_12(cpre, c);
    assert(t0[0] == es[12]);
    assert(t0.drop_first() =~= t1);
    assert(spec_validate(cpre, t0) == spec_validate(c1, t1));
    lemma_validate_step_13(c1, c);
    assert(t1[0] == es[13]);
    assert(t1.drop_first() =~= t2);
    assert(spec_validate(c1, t1) == spec_validate(c2, t2));
    lemma_validate_step_14(c2, c);
    assert(t2[0] == es[14]);
    assert(t2.drop_first() =~= t3);
    assert(spec_validate(c2, t2) == spec_validate(c3, t3));
    lemma_validate_step_15(c3, c);
    assert(t3[0] == es[15]);
    assert(t3.drop_first() =~= t4);
    assert(spec_validate(c3, t3) == spec_validate(c4, t4));
    lemma_validate_step_16(c4, c);
    assert(t4[0] == es[16]);
    assert(t4.drop_first() =~= t5);
    assert(spec_validate(c4, t4) == spec_validate(c5, t5));
    lemma_validate_step_17(c5, c);
    assert(t5[0] == es[17]);
    assert(t5.drop_first() =~= t6);
    assert(spec_validate(c5, t5) == spec_validate(c6, t6));
    assert(c6 =~= (AppConfV { theme: c.theme, titlebar: c.titlebar, tray: c.tray, tray_dashboard: c.tray_dashboard, tray_height: c.tray_height, tray_width: c.tray_width, ..cpre }));
}

/// Overlaying a record's own entries on any base yields that record.
pub proof fn lemma_validate_entries_of(base: AppConfV, c: AppConfV)
    ensures
        spec_validate(base, entries_of(c)) == Some(c),
{
    let es = entries_of(c);
    assert(es.subrange(0, 18) =~= es);
    lemma_validate_span_0(base, c);
    let d0 = AppConfV { auto_update: c.auto_update, global_shortcut: c.global_shortcut, hide_dock_icon: c.hide_dock_icon, isinit: c.isinit, main_close: c.main_close, main_dashboard: c.main_dashboard, ..base };
    lemma_validate_span_1(d0, c);
    let d1 = AppConfV { main_height: c.main_height, main_width: c.main_width, popup_search: c.popup_search, save_window_state: c.save_window_state, speech_lang: c.speech_lang, stay_on_top: c.stay_on_top, ..d0 };
    lemma_validate_span_2(d1, c);
    let d2 = AppConfV { theme: c.theme, titlebar: c.titlebar, tray: c.tray, tray_dashboard: c.tray_dashboard, tray_height: c.tray_height, tray_width: c.tray_width, ..d1 };
    assert(es.subrange(18, 18) =~= Seq::<(Seq<char>, JsonV)>::empty());
    assert(spec_validate(d2, es.subrange(18, 18)) == Some(d2));
    assert(d2 =~= c);
}

/// Writing a record and reading it back yields the same record, and
/// writing again yields byte-identical text: stable key order makes the
/// printed form a fixed point.
pub proof fn lemma_write_read_idempotent(c: AppConfV)
    ensures
        conf_of_text(Some(conf_to_text(c))) == c,
        conf_to_text(conf_of_text(Some(conf_to_text(c)))) == conf_to_text(c),
{
    assert(entries_of(c).len() == 18);
    lemma_parse_print_text(entries_of(c));
    lemma_validate_entries_of(default_conf(), c);
}

/// A missing or unreadable file loads as the all-defaults record.
pub proof fn lemma_read_missing_is_default()
    ensures
        conf_of_text(None::<Seq<char>>) == default_conf(),
{
}

/// A malformed file loads as the all-defaults record; the loader is a
/// total function and never fails its caller.
pub proof fn lemma_read_malformed_is_default(s: Seq<char>)
    requires
        parse_text(s) is None,
    ensures
        conf_of_text(Some(s)) == default_conf(),
{
}


/// A window theme resolved from the preference string and the OS mode.
#[derive(PartialEq, Eq, Structural, Clone, Copy, Debug)]
pub enum Theme {
    Light,
    Dark,
}

/// The OS-reported dark/light preference.
#[derive(PartialEq, Eq, Structural, Clone, Copy, Debug)]
pub enum SystemMode {
    Dark,
    Light,
    Unspecified,
}

/// The titlebar style chosen by the `titlebar` preference.
#[derive(PartialEq, Eq, Structural, Clone, Copy, Debug)]
pub enum TitleBarStyle {
    Transparent,
    Overlay,
}

/// Relies on dark_light::detect: reports the OS dark/light preference; on
/// an error the mode counts as unspecified. The outcome depends on the
/// environment, so nothing is promised of it.
#[verifier::external_body]
pub fn detect_system_mode() -> (r: SystemMode) {
    match dark_light::detect() {
        Ok(dark_light::Mode::Dark) => SystemMode::Dark,
        Ok(dark_light::Mode::Light) => SystemMode::Light,
        Ok(dark_light::Mode::Unspecified) => SystemMode::Unspecified,
        Err(_) => SystemMode::Unspecified,
    }
}

/// How a (lowercased) theme preference and an OS mode pick the theme:
/// "system" follows the OS (unspecified counts as light), "dark" is dark,
/// anything else is light.
pub open spec fn spec_theme_mode(theme_lower: Seq<char>, m: SystemMode) -> Theme {
    if theme_lower == "system"@ {
        match m {
            SystemMode::Dark => Theme::Dark,
            SystemMode::Light => Theme::Light,
            SystemMode::Unspecified => Theme::Light,
        }
    } else if theme_lower == "dark"@ {
        Theme::Dark
    } else {
        Theme::Light
    }
}

impl AppConf {
    /// The lowercased theme preference.
    pub fn get_theme(&self) -> (r: String)
        ensures
            r@ == lower_of(self@.theme),
    {
        lowercase(self.theme.as_str())
    }

    /// The lowercased auto-update policy.
    pub fn get_auto_update(self) -> (r: String)
        ensures
            r@ == lower_of(self@.auto_update),
    {
        lowercase(self.auto_update.as_str())
    }

    /// Whether the (lowercased) theme preference equals `mode`.
    pub fn theme_check(self, mode: &str) -> (r: bool)
        ensures
            r == (lower_of(self@.theme) == mode@),
    {
        let tl = lowercase(self.theme.as_str());
        tl == mode.to_owned()
    }

    /// The titlebar style the `titlebar` flag selects.
    pub fn titlebar(self) -> (r: TitleBarStyle)
        ensures
            r == (if self@.titlebar {
                TitleBarStyle::Transparent
            } else {
                TitleBarStyle::Overlay
            }),
    {
        if self.titlebar {
            TitleBarStyle::Transparent
        } else {
            TitleBarStyle::Overlay
        }
    }

    /// The theme picked from the preference and a given OS mode.
    pub fn theme_mode_with(&self, m: SystemMode) -> (r: Theme)
        ensures
            r == spec_theme_mode(lower_of(self@.theme), m),
    {
        let tl = lowercase(self.theme.as_str());
        if tl == "system".to_owned() {
            match m {
                SystemMode::Dark => Theme::Dark,
                SystemMode::Light => Theme::Light,
                SystemMode::Unspecified => Theme::Light,
            }
        } else if tl == "dark".to_owned() {
            Theme::Dark
        } else {
            Theme::Light
        }
    }

    /// The theme picked from the preference and the OS-reported mode; of
    /// the OS query's outcome nothing is promised, so only the cases that
    /// ignore it are pinned down.
    pub fn theme_mode(&self) -> (r: Theme)
        ensures
            lower_of(self@.theme) != "system"@ ==> r == spec_theme_mode(
                lower_of(self@.theme),
                SystemMode::Unspecified,
            ),
    {
        let m = detect_system_mode();
        self.theme_mode_with(m)
    }
}

} // verus!
