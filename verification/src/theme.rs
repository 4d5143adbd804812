//! The palette of the picker and the style sheets that are made of it.

use crate::color;
use crate::color::{fallback_realm_color, is_safe_css_color};
use crate::opacity;
use crate::protocol::{Candidate, RealmDisplay};
use crate::text;
use vstd::prelude::*;

verus! {

/// The colors of the picker.
#[derive(Clone, Debug)]
pub struct ThemePalette {
    pub background: String,
    pub foreground: String,
    pub border: String,
    pub accent: String,
    pub selected_background: String,
    pub realm_background: String,
    /// Palettes may give this color; it has to be a safe one, and nothing is drawn with it.
    pub realm_header_background: String,
    pub search_background: String,
    pub warning_background: String,
}

/// A field of a palette that does not hold a safe color.
#[derive(Debug, Clone, Copy)]
pub struct ThemeError {
    pub field: &'static str,
}

impl ThemeError {
    pub fn message(&self) -> (r: String)
        ensures
            r@ == "theme field "@ + self.field@
                + " must be a #rrggbb color or alpha(#rrggbb|currentColor, opacity)"@,
    {
        let mut r: String = "theme field ".to_owned();
        r.append(self.field);
        r.append(" must be a #rrggbb color or alpha(#rrggbb|currentColor, opacity)");
        r
    }
}

proof fn default_colors_are_safe()
    ensures
        color::safe_css_color("#1e1e2e"@),
        color::safe_css_color("#f8f8f2"@),
        color::safe_css_color("#2a2d35"@),
        color::safe_css_color("#3584e4"@),
        color::safe_css_color("alpha(#3584e4, 0.14)"@),
        color::safe_css_color("alpha(#89b4fa, 0.10)"@),
        color::safe_css_color("alpha(currentColor, 0.07)"@),
        color::safe_css_color("alpha(#f5c211, 0.22)"@),
{
    reveal_strlit("alpha(");
    reveal_strlit("currentColor");
    reveal_strlit("#1e1e2e");
    reveal_strlit("#f8f8f2");
    reveal_strlit("#2a2d35");
    reveal_strlit("#3584e4");
    reveal_strlit("#89b4fa");
    reveal_strlit("#f5c211");
    reveal_strlit("alpha(#3584e4, 0.14)");
    reveal_strlit("alpha(#89b4fa, 0.10)");
    reveal_strlit("alpha(currentColor, 0.07)");
    reveal_strlit("alpha(#f5c211, 0.22)");
    color::alpha_of_hundredths_is_safe("#3584e4"@, '1', '4');
    assert("alpha(#3584e4, 0.14)"@ =~= "alpha("@ + "#3584e4"@ + seq![',', ' ', '0', '.', '1', '4', ')']);
    color::alpha_of_hundredths_is_safe("#89b4fa"@, '1', '0');
    assert("alpha(#89b4fa, 0.10)"@ =~= "alpha("@ + "#89b4fa"@ + seq![',', ' ', '0', '.', '1', '0', ')']);
    color::alpha_of_hundredths_is_safe("currentColor"@, '0', '7');
    assert("alpha(currentColor, 0.07)"@ =~= "alpha("@ + "currentColor"@ + seq![',', ' ', '0', '.', '0', '7', ')']);
    color::alpha_of_hundredths_is_safe("#f5c211"@, '2', '2');
    assert("alpha(#f5c211, 0.22)"@ =~= "alpha("@ + "#f5c211"@ + seq![',', ' ', '0', '.', '2', '2', ')']);
}

impl Default for ThemePalette {
    fn default() -> (r: ThemePalette)
        ensures
            r.background@ == "#1e1e2e"@,
            r.foreground@ == "#f8f8f2"@,
            r.border@ == "#2a2d35"@,
            r.accent@ == "#3584e4"@,
            r.selected_background@ == "alpha(#3584e4, 0.14)"@,
            r.realm_background@ == "alpha(#3584e4, 0.14)"@,
            r.realm_header_background@ == "alpha(#89b4fa, 0.10)"@,
            r.search_background@ == "alpha(currentColor, 0.07)"@,
            r.warning_background@ == "alpha(#f5c211, 0.22)"@,
            r.first_unsafe_field() is None,
    {
        proof {
            default_colors_are_safe();
        }
        ThemePalette {
            background: "#1e1e2e".to_owned(),
            foreground: "#f8f8f2".to_owned(),
            border: "#2a2d35".to_owned(),
            accent: "#3584e4".to_owned(),
            selected_background: "alpha(#3584e4, 0.14)".to_owned(),
            realm_background: "alpha(#3584e4, 0.14)".to_owned(),
            realm_header_background: "alpha(#89b4fa, 0.10)".to_owned(),
            search_background: "alpha(currentColor, 0.07)".to_owned(),
            warning_background: "alpha(#f5c211, 0.22)".to_owned(),
        }
    }
}

pub const CSS_WINDOW: &'static str = "
        window.d2b-clip-picker {
            background-color: ";

pub const CSS_COLOR: &'static str = ";
            color: ";

pub const CSS_FRAME: &'static str = ";
            border: 2px solid ";

pub const CSS_ROOT: &'static str = ";
            border-radius: 12px;
        }
        .d2b-clip-picker-root {
            background-color: ";

pub const CSS_CHROME: &'static str = ";
            border-radius: 12px;
        }
        headerbar { background: transparent; box-shadow: none; }
        .drag-handle { padding: 8px 12px; }
        .pin-toggle { min-width: 24px; padding: 4px 6px; }
        .pin-toggle:checked {
            background: ";

pub const CSS_ITEM: &'static str = ";
        }
        .clipboard-list { background: transparent; }
        .clipboard-item {
            border: 1px solid ";

pub const CSS_HOVER: &'static str = ";
            border-left-width: 5px;
            border-radius: 10px;
            padding: 4px;
            margin: 6px 12px;
            transition: border-color 150ms ease, background 150ms ease;
        }
        .clipboard-item:hover { background: ";

pub const CSS_SELECTED: &'static str = "; }
        .clipboard-item:selected { background: ";

pub const CSS_PILLS: &'static str = "; }
        .clipboard-preview { opacity: 0.94; }
        .realm-pill, .search-pill, .warning-pill {
            border-radius: 999px;
            padding: 4px 8px;
        }
        .realm-pill { background: ";

pub const CSS_REALM_LABEL: &'static str = "; }
        .realm-label { color: ";

pub const CSS_SEARCH: &'static str = "; }
        .search-pill { background: ";

pub const CSS_WARNING: &'static str = "; }
        .warning-pill { background: ";

pub const CSS_END: &'static str = "; }
        ";

impl ThemePalette {
    /// The first field, in the order of their declaration, that holds no safe color.
    pub open spec fn first_unsafe_field(&self) -> Option<Seq<char>> {
        if !color::safe_css_color(self.background@) {
            Some("background"@)
        } else if !color::safe_css_color(self.foreground@) {
            Some("foreground"@)
        } else if !color::safe_css_color(self.border@) {
            Some("border"@)
        } else if !color::safe_css_color(self.accent@) {
            Some("accent"@)
        } else if !color::safe_css_color(self.selected_background@) {
            Some("selected_background"@)
        } else if !color::safe_css_color(self.realm_background@) {
            Some("realm_background"@)
        } else if !color::safe_css_color(self.realm_header_background@) {
            Some("realm_header_background"@)
        } else if !color::safe_css_color(self.search_background@) {
            Some("search_background"@)
        } else if !color::safe_css_color(self.warning_background@) {
            Some("warning_background"@)
        } else {
            None
        }
    }

    /// Every field holds a safe color, or else the error names the first that does not.
    pub fn validate(&self) -> (r: Result<(), ThemeError>)
        ensures
            r is Ok <==> self.first_unsafe_field() is None,
            r matches Err(error) ==> self.first_unsafe_field() == Some(error.field@),
    {
        let field: &'static str = if !is_safe_css_color(self.background.as_str()) {
            "background"
        } else if !is_safe_css_color(self.foreground.as_str()) {
            "foreground"
        } else if !is_safe_css_color(self.border.as_str()) {
            "border"
        } else if !is_safe_css_color(self.accent.as_str()) {
            "accent"
        } else if !is_safe_css_color(self.selected_background.as_str()) {
            "selected_background"
        } else if !is_safe_css_color(self.realm_background.as_str()) {
            "realm_background"
        } else if !is_safe_css_color(self.realm_header_background.as_str()) {
            "realm_header_background"
        } else if !is_safe_css_color(self.search_background.as_str()) {
            "search_background"
        } else if !is_safe_css_color(self.warning_background.as_str()) {
            "warning_background"
        } else {
            return Ok(());
        };
        Err(ThemeError { field })
    }

    /// The style sheet of the picker.
    pub open spec fn style_sheet(&self) -> Seq<char> {
        CSS_WINDOW@ + self.background@ + CSS_COLOR@ + self.foreground@ + CSS_FRAME@ + self.border@
            + CSS_ROOT@ + self.background@ + CSS_COLOR@ + self.foreground@ + CSS_FRAME@
            + self.border@ + CSS_CHROME@ + self.accent@ + CSS_COLOR@ + self.foreground@ + CSS_ITEM@
            + self.border@ + CSS_HOVER@ + self.search_background@ + CSS_SELECTED@
            + self.selected_background@ + CSS_PILLS@ + self.realm_background@ + CSS_REALM_LABEL@
            + self.foreground@ + CSS_SEARCH@ + self.search_background@ + CSS_WARNING@
            + self.warning_background@ + CSS_END@
    }

    pub fn css(&self) -> (r: String)
        ensures
            r@ == self.style_sheet(),
    {
        let mut r: String = CSS_WINDOW.to_owned();
        r.append(self.background.as_str());
        r.append(CSS_COLOR);
        r.append(self.foreground.as_str());
        r.append(CSS_FRAME);
        r.append(self.border.as_str());
        r.append(CSS_ROOT);
        r.append(self.background.as_str());
        r.append(CSS_COLOR);
        r.append(self.foreground.as_str());
        r.append(CSS_FRAME);
        r.append(self.border.as_str());
        r.append(CSS_CHROME);
        r.append(self.accent.as_str());
        r.append(CSS_COLOR);
        r.append(self.foreground.as_str());
        r.append(CSS_ITEM);
        r.append(self.border.as_str());
        r.append(CSS_HOVER);
        r.append(self.search_background.as_str());
        r.append(CSS_SELECTED);
        r.append(self.selected_background.as_str());
        r.append(CSS_PILLS);
        r.append(self.realm_background.as_str());
        r.append(CSS_REALM_LABEL);
        r.append(self.foreground.as_str());
        r.append(CSS_SEARCH);
        r.append(self.search_background.as_str());
        r.append(CSS_WARNING);
        r.append(self.warning_background.as_str());
        r.append(CSS_END);
        r
    }
}

/// The style class of the entries from one realm.
pub struct RealmClass {
    pub realm: String,
    pub class: String,
}

/// The realms that entries come from, each once, in the order in which they first occur.
pub open spec fn distinct_realms(candidates: Seq<Candidate>) -> Seq<Seq<char>>
    decreases candidates.len(),
{
    if candidates.len() == 0 {
        Seq::empty()
    } else {
        let before = distinct_realms(candidates.drop_last());
        if before.contains(candidates.last().source_realm@) {
            before
        } else {
            before.push(candidates.last().source_realm@)
        }
    }
}

/// The name of the style class with this number.
pub open spec fn class_name(i: nat) -> Seq<char> {
    "d2b-realm-header-"@ + text::decimal_digits(i)
}

/// Whether these are the classes of these realms, numbered in their order.
pub open spec fn are_classes_of(classes: Seq<RealmClass>, realms: Seq<Seq<char>>) -> bool {
    &&& classes.len() == realms.len()
    &&& forall|i: int|
        0 <= i < classes.len() ==> (#[trigger] classes[i]).realm@ == realms[i] && classes[i].class@
            == class_name(i as nat)
}

/// Where the class of a realm stands, or the number of classes if the realm has none.
fn class_place(classes: &Vec<RealmClass>, realm: &str) -> (r: usize)
    ensures
        r <= classes@.len(),
        r < classes@.len() ==> classes@[r as int].realm@ == realm@,
        forall|i: int| 0 <= i < r ==> (#[trigger] classes@[i]).realm@ != realm@,
{
    let mut i: usize = 0;
    while i < classes.len()
        invariant
            i <= classes@.len(),
            forall|j: int| 0 <= j < i ==> (#[trigger] classes@[j]).realm@ != realm@,
        decreases classes.len() - i,
    {
        if text::same_text(classes[i].realm.as_str(), realm) {
            return i;
        }
        i = i + 1;
    }
    i
}

/// Numbers the realms that entries come from.
pub fn build_realm_css_classes(candidates: &Vec<Candidate>) -> (r: Vec<RealmClass>)
    ensures
        are_classes_of(r@, distinct_realms(candidates@)),
{
    let mut r: Vec<RealmClass> = Vec::new();
    let mut i: usize = 0;
    assert(candidates@.take(0).len() == 0);
    while i < candidates.len()
        invariant
            i <= candidates@.len(),
            are_classes_of(r@, distinct_realms(candidates@.take(i as int))),
        decreases candidates.len() - i,
    {
        let ghost before = distinct_realms(candidates@.take(i as int));
        assert(candidates@.take(i + 1).drop_last() =~= candidates@.take(i as int));
        let realm = &candidates[i].source_realm;
        let at: usize = class_place(&r, realm.as_str());
        if at == r.len() {
            proof {
                assert forall|j: int| 0 <= j < before.len() implies before[j] != realm@ by {
                    assert(r@[j].realm@ == before[j]);
                }
            }
            let number = text::decimal(r.len() as u64);
            let mut class: String = "d2b-realm-header-".to_owned();
            class.append(number.as_str());
            r.push(RealmClass { realm: realm.clone(), class });
        } else {
            assert(before[at as int] == realm@);
            assert(before.contains(realm@));
        }
        i = i + 1;
    }
    assert(candidates@.take(i as int) =~= candidates@);
    r
}

/// The style class of a realm, if it has one.
pub fn class_of<'a>(classes: &'a Vec<RealmClass>, realm: &str) -> (r: Option<&'a str>)
    ensures
        r matches Some(class) ==> exists|i: int|
            0 <= i < classes@.len() && (#[trigger] classes@[i]).realm@ == realm@
                && classes@[i].class@ == class@ && forall|j: int|
                0 <= j < i ==> (#[trigger] classes@[j]).realm@ != realm@,
        r is None ==> forall|i: int|
            0 <= i < classes@.len() ==> (#[trigger] classes@[i]).realm@ != realm@,
{
    let at: usize = class_place(classes, realm);
    if at < classes.len() {
        Some(classes[at].class.as_str())
    } else {
        None
    }
}

/// The color of a realm: the one that the daemon gave it, if that is safe, and else the one
/// that its name decides.
pub open spec fn realm_color(
    display: Map<Seq<char>, Option<Seq<char>>>,
    realm: Seq<char>,
) -> Seq<char> {
    if display.dom().contains(realm) && (display[realm] matches Some(given)
        && color::safe_css_color(given)) {
        display[realm]->0
    } else {
        color::realm_fallback(realm)
    }
}

/// The rule that gives the entries of one class their color.
pub open spec fn color_rule(class: Seq<char>, color: Seq<char>) -> Seq<char> {
    "."@ + class + " { border-left-color: "@ + color + "; }\n"@
}

/// The rules of all classes, one behind the other.
pub open spec fn color_rules(
    display: Map<Seq<char>, Option<Seq<char>>>,
    classes: Seq<RealmClass>,
) -> Seq<char>
    decreases classes.len(),
{
    if classes.len() == 0 {
        Seq::empty()
    } else {
        color_rules(display, classes.drop_last()) + color_rule(
            classes.last().class@,
            realm_color(display, classes.last().realm@),
        )
    }
}

fn color_of_realm(display: &RealmDisplay, realm: &str) -> (r: String)
    ensures
        r@ == realm_color(display@, realm@),
{
    if let Some(given) = display.color(realm) {
        if is_safe_css_color(given.as_str()) {
            return given.clone();
        }
    }
    fallback_realm_color(realm)
}

/// The style sheet that shows where entries come from.
pub fn realm_colors_css(display: &RealmDisplay, classes: &Vec<RealmClass>) -> (r: String)
    ensures
        r@ == color_rules(display@, classes@),
{
    let mut r: String = String::new();
    let mut i: usize = 0;
    assert(classes@.take(0).len() == 0);
    while i < classes.len()
        invariant
            i <= classes@.len(),
            r@ == color_rules(display@, classes@.take(i as int)),
        decreases classes.len() - i,
    {
        let ghost before = r@;
        let color = color_of_realm(display, classes[i].realm.as_str());
        r.append(".");
        r.append(classes[i].class.as_str());
        r.append(" { border-left-color: ");
        r.append(color.as_str());
        r.append("; }\n");
        proof {
            let class = classes@[i as int];
            assert(classes@.take(i + 1).drop_last() =~= classes@.take(i as int));
            assert(r@ =~= before + color_rule(class.class@, color@));
        }
        i = i + 1;
    }
    assert(classes@.take(i as int) =~= classes@);
    r
}

/// Whatever the daemon says, the color that an entry is shown with is a safe one.
pub proof fn realm_colors_are_safe(display: Map<Seq<char>, Option<Seq<char>>>, realm: Seq<char>)
    ensures
        color::safe_css_color(realm_color(display, realm)),
{
    color::fallback_realm_color_is_safe(realm);
}

/// A realm occurs once among the distinct realms of entries, and it occurs there if and only if
/// some entry comes from it.
pub proof fn distinct_realms_are_the_realms(candidates: Seq<Candidate>)
    ensures
        distinct_realms(candidates).no_duplicates(),
        forall|i: int|
            0 <= i < candidates.len() ==> distinct_realms(candidates).contains(
                (#[trigger] candidates[i]).source_realm@,
            ),
        forall|realm: Seq<char>| #[trigger]
            distinct_realms(candidates).contains(realm) ==> exists|i: int|
                0 <= i < candidates.len() && (#[trigger] candidates[i]).source_realm@ == realm,
    decreases candidates.len(),
{
    if candidates.len() > 0 {
        let shorter = candidates.drop_last();
        let before = distinct_realms(shorter);
        let all = distinct_realms(candidates);
        let last = candidates.last().source_realm@;
        distinct_realms_are_the_realms(shorter);
        assert forall|i: int| 0 <= i < candidates.len() implies all.contains(
            (#[trigger] candidates[i]).source_realm@,
        ) by {
            let realm = candidates[i].source_realm@;
            if i < shorter.len() {
                assert(shorter[i] == candidates[i]);
                let k = choose|k: int| 0 <= k < before.len() && before[k] == realm;
                assert(all[k] == realm);
            } else if !before.contains(last) {
                assert(all[before.len() as int] == realm);
            }
        }
        assert forall|realm: Seq<char>| #[trigger] all.contains(realm) implies exists|i: int|
            0 <= i < candidates.len() && (#[trigger] candidates[i]).source_realm@ == realm by {
            if before.contains(realm) {
                let i = choose|i: int|
                    0 <= i < shorter.len() && (#[trigger] shorter[i]).source_realm@ == realm;
                assert(candidates[i].source_realm@ == realm);
            } else {
                assert(realm == last);
                assert(candidates[candidates.len() - 1].source_realm@ == realm);
            }
        }
    }
}

/// Different numbers name different classes, so no realm takes over the color of another.
pub proof fn class_names_are_distinct(i: nat, j: nat)
    requires
        class_name(i) == class_name(j),
    ensures
        i == j,
{
    let start = "d2b-realm-header-"@;
    let a = text::decimal_digits(i);
    let b = text::decimal_digits(j);
    assert((start + a).skip(start.len() as int) =~= a);
    assert((start + b).skip(start.len() as int) =~= b);
    opacity::decimal_digits_spell_the_number(i);
    opacity::decimal_digits_spell_the_number(j);
}

/// Whether the picker is dark.
#[derive(Debug, Clone, Copy, PartialEq, Eq, Structural)]
pub enum ColorScheme {
    PreferDark,
    Standard,
}

impl ColorScheme {
    /// The scheme that the settings of the desktop call for. Where there are none, it is left as
    /// it is.
    pub fn from_settings(prefer_dark: Option<bool>) -> (r: Option<ColorScheme>)
        ensures
            r == (match prefer_dark {
                Some(true) => Some(ColorScheme::PreferDark),
                Some(false) => Some(ColorScheme::Standard),
                None => None,
            }),
    {
        match prefer_dark {
            Some(true) => Some(ColorScheme::PreferDark),
            Some(false) => Some(ColorScheme::Standard),
            None => None,
        }
    }
}

/// A palette is accepted exactly if all nine of its colors are safe; one that has a single unsafe
/// color is refused for that one.
pub proof fn palettes_of_safe_colors_are_accepted(palette: ThemePalette)
    ensures
        ({
            let background = color::safe_css_color(palette.background@);
            let foreground = color::safe_css_color(palette.foreground@);
            let border = color::safe_css_color(palette.border@);
            let accent = color::safe_css_color(palette.accent@);
            let selected = color::safe_css_color(palette.selected_background@);
            let realm = color::safe_css_color(palette.realm_background@);
            let header = color::safe_css_color(palette.realm_header_background@);
            let search = color::safe_css_color(palette.search_background@);
            let warning = color::safe_css_color(palette.warning_background@);
            let unsafe_field = palette.first_unsafe_field();
            &&& unsafe_field is None <==> background && foreground && border && accent && selected
                && realm && header && search && warning
            &&& !background ==> unsafe_field == Some("background"@)
            &&& background && !foreground ==> unsafe_field == Some("foreground"@)
            &&& background && foreground && !border ==> unsafe_field == Some("border"@)
            &&& background && foreground && border && !accent ==> unsafe_field == Some("accent"@)
            &&& background && foreground && border && accent && !selected ==> unsafe_field == Some(
                "selected_background"@,
            )
            &&& background && foreground && border && accent && selected && !realm ==> unsafe_field
                == Some("realm_background"@)
            &&& background && foreground && border && accent && selected && realm && !header
                ==> unsafe_field == Some("realm_header_background"@)
            &&& background && foreground && border && accent && selected && realm && header
                && !search ==> unsafe_field == Some("search_background"@)
            &&& background && foreground && border && accent && selected && realm && header
                && search && !warning ==> unsafe_field == Some("warning_background"@)
        }),
{
}

proof fn lemma_found_in_front(needle: Seq<char>, front: Seq<char>, back: Seq<char>)
    requires
        text::occurs_in(needle, front),
    ensures
        text::occurs_in(needle, front + back),
{
    let nothing = Seq::<char>::empty();
    text::found_text_stays_found(needle, nothing, front, back);
    assert(nothing + front + back =~= front + back);
}

proof fn lemma_found_at_the_end(front: Seq<char>, joint: Seq<char>, back: Seq<char>)
    ensures
        text::occurs_in(joint + back, front + joint + back),
{
    let nothing = Seq::<char>::empty();
    assert(front + (joint + back) + nothing =~= front + joint + back);
    text::inner_text_is_found(front, joint + back, nothing);
}

/// Whether everything that is found in one text is found in another.
spec fn finds_as_much(longer: Seq<char>, shorter: Seq<char>) -> bool {
    forall|needle: Seq<char>|
        text::occurs_in(needle, shorter) ==> #[trigger] text::occurs_in(needle, longer)
}

proof fn lemma_finds_as_much(front: Seq<char>, back: Seq<char>)
    ensures
        finds_as_much(front + back, front),
{
    let longer = front + back;
    assert forall|needle: Seq<char>| text::occurs_in(needle, front) implies #[trigger] text::occurs_in(
        needle,
        longer,
    ) by {
        lemma_found_in_front(needle, front, back);
    }
}

/// What is found in a text is found with more behind it, and so is the joint of the two.
proof fn lemma_appended(front: Seq<char>, joint: Seq<char>, back: Seq<char>)
    ensures
        finds_as_much(front + joint + back, front + joint),
        text::occurs_in(joint + back, front + joint + back),
{
    lemma_finds_as_much(front + joint, back);
    lemma_found_at_the_end(front, joint, back);
}

/// The style sheet draws everything in its own color: the window and its root in the background
/// and the foreground with the border around them, a pinned pin in the accent, entries with the
/// border, entries under the pointer and the search in the color of the search, the selected entry
/// in that of the selection, realms in theirs with the foreground for the label, and warnings in
/// theirs.
#[verifier::rlimit(50)]
pub proof fn style_sheet_uses_each_color(palette: ThemePalette)
    ensures
        ({
            let sheet = palette.style_sheet();
            &&& text::occurs_in(CSS_WINDOW@ + palette.background@, sheet)
            &&& text::occurs_in(CSS_COLOR@ + palette.foreground@, sheet)
            &&& text::occurs_in(CSS_FRAME@ + palette.border@, sheet)
            &&& text::occurs_in(CSS_ROOT@ + palette.background@, sheet)
            &&& text::occurs_in(CSS_CHROME@ + palette.accent@, sheet)
            &&& text::occurs_in(CSS_ITEM@ + palette.border@, sheet)
            &&& text::occurs_in(CSS_HOVER@ + palette.search_background@, sheet)
            &&& text::occurs_in(CSS_SELECTED@ + palette.selected_background@, sheet)
            &&& text::occurs_in(CSS_PILLS@ + palette.realm_background@, sheet)
            &&& text::occurs_in(CSS_REALM_LABEL@ + palette.foreground@, sheet)
            &&& text::occurs_in(CSS_SEARCH@ + palette.search_background@, sheet)
            &&& text::occurs_in(CSS_WARNING@ + palette.warning_background@, sheet)
        }),
{
    let p = palette;
    let nothing = Seq::<char>::empty();
    assert(nothing + CSS_WINDOW@ =~= CSS_WINDOW@);
    lemma_appended(nothing, CSS_WINDOW@, p.background@);
    let s1 = CSS_WINDOW@;
    lemma_appended(s1, p.background@, CSS_COLOR@);
    let s2 = s1 + p.background@;
    lemma_appended(s2, CSS_COLOR@, p.foreground@);
    let s3 = s2 + CSS_COLOR@;
    lemma_appended(s3, p.foreground@, CSS_FRAME@);
    let s4 = s3 + p.foreground@;
    lemma_appended(s4, CSS_FRAME@, p.border@);
    let s5 = s4 + CSS_FRAME@;
    lemma_appended(s5, p.border@, CSS_ROOT@);
    let s6 = s5 + p.border@;
    lemma_appended(s6, CSS_ROOT@, p.background@);
    let s7 = s6 + CSS_ROOT@;
    lemma_appended(s7, p.background@, CSS_COLOR@);
    let s8 = s7 + p.background@;
    lemma_appended(s8, CSS_COLOR@, p.foreground@);
    let s9 = s8 + CSS_COLOR@;
    lemma_appended(s9, p.foreground@, CSS_FRAME@);
    let s10 = s9 + p.foreground@;
    lemma_appended(s10, CSS_FRAME@, p.border@);
    let s11 = s10 + CSS_FRAME@;
    lemma_appended(s11, p.border@, CSS_CHROME@);
    let s12 = s11 + p.border@;
    lemma_appended(s12, CSS_CHROME@, p.accent@);
    let s13 = s12 + CSS_CHROME@;
    lemma_appended(s13, p.accent@, CSS_COLOR@);
    let s14 = s13 + p.accent@;
    lemma_appended(s14, CSS_COLOR@, p.foreground@);
    let s15 = s14 + CSS_COLOR@;
    lemma_appended(s15, p.foreground@, CSS_ITEM@);
    let s16 = s15 + p.foreground@;
    lemma_appended(s16, CSS_ITEM@, p.border@);
    let s17 = s16 + CSS_ITEM@;
    lemma_appended(s17, p.border@, CSS_HOVER@);
    let s18 = s17 + p.border@;
    lemma_appended(s18, CSS_HOVER@, p.search_background@);
    let s19 = s18 + CSS_HOVER@;
    lemma_appended(s19, p.search_background@, CSS_SELECTED@);
    let s20 = s19 + p.search_background@;
    lemma_appended(s20, CSS_SELECTED@, p.selected_background@);
    let s21 = s20 + CSS_SELECTED@;
    lemma_appended(s21, p.selected_background@, CSS_PILLS@);
    let s22 = s21 + p.selected_background@;
    lemma_appended(s22, CSS_PILLS@, p.realm_background@);
    let s23 = s22 + CSS_PILLS@;
    lemma_appended(s23, p.realm_background@, CSS_REALM_LABEL@);
    let s24 = s23 + p.realm_background@;
    lemma_appended(s24, CSS_REALM_LABEL@, p.foreground@);
    let s25 = s24 + CSS_REALM_LABEL@;
    lemma_appended(s25, p.foreground@, CSS_SEARCH@);
    let s26 = s25 + p.foreground@;
    lemma_appended(s26, CSS_SEARCH@, p.search_background@);
    let s27 = s26 + CSS_SEARCH@;
    lemma_appended(s27, p.search_background@, CSS_WARNING@);
    let s28 = s27 + p.search_background@;
    lemma_appended(s28, CSS_WARNING@, p.warning_background@);
    let s29 = s28 + CSS_WARNING@;
    lemma_appended(s29, p.warning_background@, CSS_END@);
    assert(palette.style_sheet() == s29 + p.warning_background@ + CSS_END@);
}

/// A realm is shown in the color that the daemon gave it if that is a safe one, and in the one
/// that its name decides if the daemon gave none or one that is not safe.
pub proof fn given_colors_are_used(
    display: Map<Seq<char>, Option<Seq<char>>>,
    realm: Seq<char>,
    given: Seq<char>,
)
    ensures
        display.dom().contains(realm) && display[realm] == Some(given) && color::safe_css_color(
            given,
        ) ==> realm_color(display, realm) == given,
        display.dom().contains(realm) && display[realm] == Some(given) && !color::safe_css_color(
            given,
        ) ==> realm_color(display, realm) == color::realm_fallback(realm),
        display.dom().contains(realm) && display[realm] is None ==> realm_color(display, realm)
            == color::realm_fallback(realm),
        !display.dom().contains(realm) ==> realm_color(display, realm) == color::realm_fallback(
            realm,
        ),
{
}

/// Every class has its rule in the style sheet of the realms, with the color of its realm.
pub proof fn every_class_has_its_rule(
    display: Map<Seq<char>, Option<Seq<char>>>,
    classes: Seq<RealmClass>,
    i: int,
)
    requires
        0 <= i < classes.len(),
    ensures
        text::occurs_in(
            "."@ + classes[i].class@ + " { border-left-color: "@ + realm_color(
                display,
                classes[i].realm@,
            ) + "; }\n"@,
            color_rules(display, classes),
        ),
    decreases classes.len(),
{
    let shorter = classes.drop_last();
    let before = color_rules(display, shorter);
    let rule = color_rule(classes.last().class@, realm_color(display, classes.last().realm@));
    let nothing = Seq::<char>::empty();
    if i == classes.len() - 1 {
        text::inner_text_is_found(before, rule, nothing);
        assert(before + rule + nothing =~= before + rule);
    } else {
        assert(shorter[i] == classes[i]);
        every_class_has_its_rule(display, shorter, i);
        let earlier = color_rule(classes[i].class@, realm_color(display, classes[i].realm@));
        text::found_text_stays_found(earlier, nothing, before, rule);
        assert(nothing + before + rule =~= before + rule);
    }
}

/// Without classes the style sheet of the realms is empty, and one more class adds its rule
/// behind the others.
pub proof fn rules_stand_in_order(
    display: Map<Seq<char>, Option<Seq<char>>>,
    classes: Seq<RealmClass>,
    class: RealmClass,
)
    ensures
        classes.len() == 0 ==> color_rules(display, classes).len() == 0,
        color_rules(display, classes.push(class)) == color_rules(display, classes) + ("."@
            + class.class@ + " { border-left-color: "@ + realm_color(display, class.realm@)
            + "; }\n"@),
{
    assert(classes.push(class).drop_last() =~= classes);
}

/// The distinct realms stand in the order in which they first occur: of two of them, the first
/// has an entry before every entry of the second.
pub proof fn distinct_realms_stand_in_order(candidates: Seq<Candidate>, a: int, b: int)
    requires
        0 <= a < b < distinct_realms(candidates).len(),
    ensures
        exists|i: int|
            0 <= i < candidates.len() && (#[trigger] candidates[i]).source_realm@
                == distinct_realms(candidates)[a] && forall|j: int|
                0 <= j < candidates.len() && (#[trigger] candidates[j]).source_realm@
                    == distinct_realms(candidates)[b] ==> i < j,
    decreases candidates.len(),
{
    let shorter = candidates.drop_last();
    let before = distinct_realms(shorter);
    let all = distinct_realms(candidates);
    let last = candidates.last().source_realm@;
    distinct_realms_are_the_realms(shorter);
    if b < before.len() {
        distinct_realms_stand_in_order(shorter, a, b);
        let i = choose|i: int|
            0 <= i < shorter.len() && (#[trigger] shorter[i]).source_realm@ == before[a] && forall|
                j: int,
            |
                0 <= j < shorter.len() && (#[trigger] shorter[j]).source_realm@ == before[b] ==> i
                    < j;
        assert(candidates[i] == shorter[i]);
        assert forall|j: int|
            0 <= j < candidates.len() && (#[trigger] candidates[j]).source_realm@
                == all[b] implies i < j by {
            if j < shorter.len() {
                assert(shorter[j] == candidates[j]);
            }
        }
    } else {
        assert(all[b] == last && !before.contains(last));
        assert(before.contains(before[a]));
        let i = choose|i: int|
            0 <= i < shorter.len() && (#[trigger] shorter[i]).source_realm@ == before[a];
        assert(candidates[i] == shorter[i]);
        assert forall|j: int|
            0 <= j < candidates.len() && (#[trigger] candidates[j]).source_realm@
                == all[b] implies i < j by {
            if j < shorter.len() {
                assert(shorter[j] == candidates[j]);
                assert(before.contains(shorter[j].source_realm@));
            }
        }
    }
}

/// The classes of realms are numbered from zero on, one for each realm.
pub proof fn classes_are_numbered(classes: Seq<RealmClass>, realms: Seq<Seq<char>>, i: int)
    requires
        are_classes_of(classes, realms),
        0 <= i < realms.len(),
    ensures
        classes.len() == realms.len(),
        classes[i].realm@ == realms[i],
        classes[i].class@ == "d2b-realm-header-"@ + text::decimal_digits(i as nat),
{
}

/// The picker is dark where the desktop is, and not where it is not.
pub proof fn scheme_follows_the_desktop(prefer_dark: Option<bool>, r: Option<ColorScheme>)
    requires
        call_ensures(ColorScheme::from_settings, (prefer_dark,), r),
    ensures
        prefer_dark == Some(true) ==> r == Some(ColorScheme::PreferDark),
        prefer_dark == Some(false) ==> r == Some(ColorScheme::Standard),
        prefer_dark is None ==> r is None,
{
}

} // verus!
