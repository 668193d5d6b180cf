//! One frame of the keyboard: the face of each key, the suggestions above them,
//! and what the overlays put on their cards.

use vstd::prelude::*;

use crate::keys::{KeyAction, KeyCell, KeyPos, KeyRow, VkStyle, VK_SPACE};
use crate::text::{chars_of, string_of};
use crate::vk_icons::VkIcon;
use crate::vk_renderer;
use crate::vk_renderer::{
    is_action_key, key_icon, ControllerArt, ControllerIconFamily, VkModifiers, VkPalette, VoicePhase,
};
use crate::vk_ui;
use crate::vk_ui::{key_glyph, key_hint};

verus! {

/// What `char::is_alphabetic` says of a character.
pub uninterp spec fn alphabetic(c: char) -> bool;

/// `char::is_alphabetic`: whether the character has Unicode's `Alphabetic`
/// property. Its answer is the same wherever the same standard library runs, and
/// is only named here.
pub assume_specification[ char::is_alphabetic ](c: char) -> (r: bool)
    ensures
        r == alphabetic(c),
;

/// What `str::to_uppercase` makes of a text.
pub uninterp spec fn uppercase(s: Seq<char>) -> Seq<char>;

/// `str::to_uppercase`: the upper-case equivalent of the text by Unicode's rules.
/// The result depends on the text alone, not on a locale, and is only named here.
pub assume_specification[ str::to_uppercase ](s: &str) -> (r: String)
    ensures
        r@ == uppercase(s@),
;

/// `s` without its leading question marks.
pub open spec fn without_questions(s: Seq<char>) -> Seq<char>
    decreases s.len(),
{
    if s.len() > 0 && s[0] == '?' {
        without_questions(s.skip(1))
    } else {
        s
    }
}

/// `without_questions`, computed.
pub fn trim_questions(s: &str) -> (out: String)
    ensures
        out@ == without_questions(s@),
{
    let chars = chars_of(s);
    let n: usize = chars.len();
    let mut from: usize = 0;
    assert(chars@.skip(0) =~= chars@);
    while from < n && chars[from] == '?'
        invariant
            from <= n,
            n == chars.len(),
            chars@ == s@,
            without_questions(s@) == without_questions(chars@.skip(from as int)),
        decreases n - from,
    {
        assert(chars@.skip(from as int).skip(1) =~= chars@.skip(from + 1));
        from += 1;
    }
    assert(chars@.subrange(from as int, n as int) =~= chars@.skip(from as int));
    string_of(vstd::slice::slice_subrange(chars.as_slice(), from, n))
}

/// How a look rewrites the text on a key, where `alpha` says whether a character
/// is a letter and `upper` is the text in capitals: one look shows letters as
/// capitals and drops the question mark from the symbols key.
pub open spec fn restyled(
    style: VkStyle,
    action: KeyAction,
    glyph: Seq<char>,
    alpha: bool,
    upper: Seq<char>,
) -> Seq<char> {
    match (style, action) {
        (VkStyle::Apple, KeyAction::Char(_)) => if alpha {
            upper
        } else {
            glyph
        },
        (VkStyle::Apple, KeyAction::Symbols) => without_questions(glyph),
        _ => glyph,
    }
}

/// `restyled`, computed.
pub fn restyle(
    style: VkStyle,
    action: &KeyAction,
    glyph: String,
    alpha: bool,
    upper: String,
) -> (out: String)
    ensures
        out@ == restyled(style, *action, glyph@, alpha, upper@),
{
    match (style, action) {
        (VkStyle::Apple, KeyAction::Char(_)) => if alpha {
            upper
        } else {
            glyph
        },
        (VkStyle::Apple, KeyAction::Symbols) => trim_questions(glyph.as_str()),
        _ => glyph,
    }
}

/// The text on a key in a look.
pub open spec fn styled(style: VkStyle, action: KeyAction, glyph: Seq<char>) -> Seq<char> {
    let alpha = match action {
        KeyAction::Char(c) => alphabetic(c),
        _ => false,
    };
    restyled(style, action, glyph, alpha, uppercase(glyph))
}

/// `styled`, computed.
pub fn styled_glyph(style: VkStyle, action: &KeyAction, glyph: String) -> (out: String)
    ensures
        out@ == styled(style, *action, glyph@),
{
    let alpha: bool = match action {
        KeyAction::Char(c) => c.is_alphabetic(),
        _ => false,
    };
    let upper = glyph.as_str().to_uppercase();
    restyle(style, action, glyph, alpha, upper)
}

/// What the frame depends on besides the keys.
#[derive(Clone, Copy, Debug, PartialEq, Eq, Structural)]
pub struct FrameState {
    pub style: VkStyle,
    /// The selected key.
    pub sel: KeyPos,
    /// The key that was just pressed.
    pub pressed: Option<KeyPos>,
    pub modifiers: VkModifiers,
    pub icons: ControllerIconFamily,
    /// Dictation can run here.
    pub voice_available: bool,
    /// Dictation is running.
    pub voice_active: bool,
    pub voice_phase: VoicePhase,
}

#[derive(Clone, Copy, Debug, PartialEq, Eq, Structural)]
pub enum FaceFill {
    Accent,
    Action,
    Key,
}

#[derive(Clone, Copy, Debug, PartialEq, Eq, Structural)]
pub enum FaceFont {
    Symbol,
    Word,
    Label,
}

/// What a key shows.
#[derive(Clone, Copy, Debug, PartialEq, Eq, Structural)]
pub enum FaceContent {
    /// The microphone, crossed out and dimmed.
    MicOff,
    /// The animated orb.
    Orb { transcribing: bool },
    Mic,
    /// The word "space".
    SpaceWord,
    /// The small text as a caption above the space drawing.
    SpaceCaption,
    SpaceIcon,
    Icon { icon: VkIcon, large: bool },
    /// The key's text, lower on the key where a small text stands above it.
    Text { font: FaceFont, lowered: bool },
    Blank,
}

/// The badge that names the pad button.
#[derive(Clone, Copy, Debug, PartialEq, Eq, Structural)]
pub enum Badge {
    Absent,
    Icon(VkIcon),
    /// The hint itself, as text.
    Text,
}

/// The face of a key.
#[derive(Debug)]
pub struct KeyFace {
    pub selected: bool,
    pub pressed: bool,
    pub fill: FaceFill,
    /// The small text is drawn above.
    pub sublabel: bool,
    pub content: FaceContent,
    /// The text, where the content is text.
    pub glyph: String,
    pub badge: Badge,
}

/// A face, in the contracts.
pub struct FaceModel {
    pub selected: bool,
    pub pressed: bool,
    pub fill: FaceFill,
    pub sublabel: bool,
    pub content: FaceContent,
    pub glyph: Seq<char>,
    pub badge: Badge,
}

impl View for KeyFace {
    type V = FaceModel;

    open spec fn view(&self) -> FaceModel {
        FaceModel {
            selected: self.selected,
            pressed: self.pressed,
            fill: self.fill,
            sublabel: self.sublabel,
            content: self.content,
            glyph: self.glyph@,
            badge: self.badge,
        }
    }
}

pub open spec fn is_space(action: KeyAction) -> bool {
    action == KeyAction::Vk(VK_SPACE)
}

pub open spec fn fill_of(action: KeyAction, selected: bool) -> FaceFill {
    if selected {
        FaceFill::Accent
    } else if vk_renderer::is_action(action) {
        FaceFill::Action
    } else {
        FaceFill::Key
    }
}

/// What stands on a key.
pub open spec fn content_of(
    f: FrameState,
    action: KeyAction,
    label: Seq<char>,
    sublabel: bool,
) -> FaceContent {
    if action == KeyAction::VoiceInput {
        if !f.voice_available {
            FaceContent::MicOff
        } else if f.voice_active {
            FaceContent::Orb { transcribing: f.voice_phase == VoicePhase::Transcribing }
        } else {
            FaceContent::Mic
        }
    } else if is_space(action) {
        if f.style == VkStyle::Apple {
            FaceContent::SpaceWord
        } else if sublabel {
            FaceContent::SpaceCaption
        } else {
            FaceContent::SpaceIcon
        }
    } else {
        match vk_renderer::icon_of(action, f.modifiers.shift) {
            Some((icon, large)) => FaceContent::Icon { icon, large },
            None => {
                let (glyph, symbol) = vk_ui::glyph_of(action, label);
                let text = styled(f.style, action, glyph);
                if text.len() == 0 {
                    FaceContent::Blank
                } else if symbol {
                    FaceContent::Text { font: FaceFont::Symbol, lowered: sublabel }
                } else if text.len() > 1 {
                    FaceContent::Text { font: FaceFont::Word, lowered: sublabel }
                } else {
                    FaceContent::Text { font: FaceFont::Label, lowered: sublabel }
                }
            },
        }
    }
}

pub open spec fn badge_of(f: FrameState, action: KeyAction) -> Badge {
    match vk_ui::hint_of(action) {
        None => Badge::Absent,
        Some(h) => match vk_renderer::chip_of(f.icons, h) {
            Some(icon) => Badge::Icon(icon),
            None => Badge::Text,
        },
    }
}

/// The face of the key at `pos`.
pub open spec fn face_of(f: FrameState, pos: KeyPos, key: KeyCell) -> FaceModel {
    let selected = pos == f.sel;
    let content = content_of(f, key.action, key.label@, key.sublabel is Some);
    FaceModel {
        selected,
        pressed: f.pressed == Some(pos),
        fill: fill_of(key.action, selected),
        sublabel: key.sublabel is Some && !is_space(key.action),
        content,
        glyph: if content is Text {
            styled(f.style, key.action, vk_ui::glyph_of(key.action, key.label@).0)
        } else {
            seq![]
        },
        badge: badge_of(f, key.action),
    }
}

fn face_badge(f: &FrameState, key: &KeyCell) -> (b: Badge)
    ensures
        b == badge_of(*f, key.action),
{
    match key_hint(key) {
        None => Badge::Absent,
        Some(h) => match f.icons.hint_icon(h) {
            Some(icon) => Badge::Icon(icon),
            None => Badge::Text,
        },
    }
}

fn text_content(f: &FrameState, key: &KeyCell) -> (r: (FaceContent, String))
    requires
        key.action != KeyAction::VoiceInput,
        !is_space(key.action),
        vk_renderer::icon_of(key.action, f.modifiers.shift) is None,
    ensures
        r.0 == content_of(*f, key.action, key.label@, key.sublabel is Some),
        r.1@ == (if r.0 is Text {
            styled(f.style, key.action, vk_ui::glyph_of(key.action, key.label@).0)
        } else {
            seq![]
        }),
{
    let lowered: bool = key.sublabel.is_some();
    let (glyph, symbol) = key_glyph(key);
    let text = styled_glyph(f.style, &key.action, glyph);
    let n: usize = chars_of(text.as_str()).len();
    if n == 0 {
        assert(text@ =~= Seq::<char>::empty());
        (FaceContent::Blank, text)
    } else if symbol {
        (FaceContent::Text { font: FaceFont::Symbol, lowered }, text)
    } else if n > 1 {
        (FaceContent::Text { font: FaceFont::Word, lowered }, text)
    } else {
        (FaceContent::Text { font: FaceFont::Label, lowered }, text)
    }
}

fn face_content(f: &FrameState, key: &KeyCell) -> (r: (FaceContent, String))
    ensures
        r.0 == content_of(*f, key.action, key.label@, key.sublabel is Some),
        r.1@ == (if r.0 is Text {
            styled(f.style, key.action, vk_ui::glyph_of(key.action, key.label@).0)
        } else {
            seq![]
        }),
{
    let none: String = "".to_owned();
    proof {
        reveal_strlit("");
        assert(none@ =~= Seq::<char>::empty());
    }
    if matches!(key.action, KeyAction::VoiceInput) {
        if !f.voice_available {
            (FaceContent::MicOff, none)
        } else if f.voice_active {
            (
                FaceContent::Orb { transcribing: matches!(f.voice_phase, VoicePhase::Transcribing) },
                none,
            )
        } else {
            (FaceContent::Mic, none)
        }
    } else if key.action == KeyAction::Vk(VK_SPACE) {
        match f.style {
            VkStyle::Apple => (FaceContent::SpaceWord, none),
            VkStyle::Refined => if key.sublabel.is_some() {
                (FaceContent::SpaceCaption, none)
            } else {
                (FaceContent::SpaceIcon, none)
            },
        }
    } else {
        match key_icon(&key.action, f.modifiers.shift) {
            Some((icon, large)) => (FaceContent::Icon { icon, large }, none),
            None => text_content(f, key),
        }
    }
}

/// `face_of`, computed.
pub fn key_face(f: &FrameState, pos: KeyPos, key: &KeyCell) -> (face: KeyFace)
    ensures
        face@ == face_of(*f, pos, *key),
{
    let selected: bool = pos == f.sel;
    let pressed: bool = match f.pressed {
        Some(p) => p == pos,
        None => false,
    };
    let fill = if selected {
        FaceFill::Accent
    } else if is_action_key(&key.action) {
        FaceFill::Action
    } else {
        FaceFill::Key
    };
    let sublabel: bool = key.sublabel.is_some() && key.action != KeyAction::Vk(VK_SPACE);
    let (content, glyph) = face_content(f, key);
    let badge = face_badge(f, key);
    KeyFace { selected, pressed, fill, sublabel, content, glyph, badge }
}

/// Whether `faces` are the faces of the keys of row `r`.
pub open spec fn row_faces(f: FrameState, r: usize, keys: Seq<KeyCell>, faces: Seq<KeyFace>) -> bool {
    &&& faces.len() == keys.len()
    &&& forall|c: int|
        0 <= c < keys.len() ==> (#[trigger] faces[c])@ == face_of(
            f,
            KeyPos { row: r, col: c as usize },
            keys[c],
        )
}

/// Whether `faces` are the faces of all keys.
pub open spec fn frame_faces(f: FrameState, rows: Seq<KeyRow>, faces: Seq<Vec<KeyFace>>) -> bool {
    &&& faces.len() == rows.len()
    &&& forall|r: int|
        0 <= r < rows.len() ==> row_faces(f, r as usize, rows[r].keys@, (#[trigger] faces[r])@)
}

fn plan_row(f: &FrameState, row: usize, keys: &Vec<KeyCell>) -> (faces: Vec<KeyFace>)
    ensures
        row_faces(*f, row, keys@, faces@),
{
    let mut faces: Vec<KeyFace> = Vec::new();
    let mut col: usize = 0;
    while col < keys.len()
        invariant
            col <= keys.len(),
            faces.len() == col,
            forall|c: int|
                0 <= c < col ==> (#[trigger] faces@[c])@ == face_of(
                    *f,
                    KeyPos { row, col: c as usize },
                    keys@[c],
                ),
        decreases keys.len() - col,
    {
        faces.push(key_face(f, KeyPos { row, col }, &keys[col]));
        col += 1;
    }
    faces
}

/// The faces of all keys, row by row.
pub fn plan_frame(f: &FrameState, rows: &Vec<KeyRow>) -> (faces: Vec<Vec<KeyFace>>)
    ensures
        frame_faces(*f, rows@, faces@),
{
    let mut faces: Vec<Vec<KeyFace>> = Vec::new();
    let mut r: usize = 0;
    while r < rows.len()
        invariant
            r <= rows.len(),
            faces.len() == r,
            forall|k: int|
                0 <= k < r ==> row_faces(*f, k as usize, rows@[k].keys@, (#[trigger] faces@[k])@),
        decreases rows.len() - r,
    {
        faces.push(plan_row(f, r, &rows[r].keys));
        r += 1;
    }
    faces
}

/// The colours of a face.
#[derive(Clone, Copy, Debug, PartialEq, Eq, Structural)]
pub struct FaceColors {
    pub fill: u32,
    pub label: u32,
    /// The small text, to be dimmed.
    pub dim: u32,
    /// A badge drawn as an icon.
    pub badge_icon: u32,
    /// A badge drawn as text.
    pub badge_text: u32,
}

pub open spec fn colors_of(p: VkPalette, fill: FaceFill, selected: bool) -> FaceColors {
    FaceColors {
        fill: match fill {
            FaceFill::Accent => p.accent,
            FaceFill::Action => p.key_action,
            FaceFill::Key => p.key,
        },
        label: if selected { p.sel_text } else { p.text },
        dim: if selected { p.sel_text } else { p.text_dim },
        badge_icon: p.text,
        badge_text: if selected { p.sel_text } else { p.accent },
    }
}

/// `colors_of`, computed.
pub fn face_colors(p: &VkPalette, face: &KeyFace) -> (c: FaceColors)
    ensures
        c == colors_of(*p, face.fill, face.selected),
{
    let selected: bool = face.selected;
    FaceColors {
        fill: match face.fill {
            FaceFill::Accent => p.accent,
            FaceFill::Action => p.key_action,
            FaceFill::Key => p.key,
        },
        label: if selected { p.sel_text } else { p.text },
        dim: if selected { p.sel_text } else { p.text_dim },
        badge_icon: p.text,
        badge_text: if selected { p.sel_text } else { p.accent },
    }
}

/// Exactly the selected key is filled with the accent colour.
pub proof fn one_key_is_highlighted(f: FrameState, pos: KeyPos, key: KeyCell)
    ensures
        face_of(f, pos, key).fill == FaceFill::Accent <==> pos == f.sel,
        face_of(f, pos, key).selected <==> pos == f.sel,
{
}

/// The microphone tells the truth: it is live only where dictation can run, and
/// shows the orb exactly while it runs.
pub proof fn microphone_tells_the_truth(f: FrameState, pos: KeyPos, key: KeyCell)
    requires
        key.action == KeyAction::VoiceInput,
    ensures
        face_of(f, pos, key).content == FaceContent::MicOff <==> !f.voice_available,
        face_of(f, pos, key).content is Orb <==> f.voice_available && f.voice_active,
        face_of(f, pos, key).content == FaceContent::Mic <==> f.voice_available && !f.voice_active,
{
}

/// Moving the selection or pressing a key changes no text, drawing or badge.
pub proof fn selection_changes_no_content(f: FrameState, g: FrameState, pos: KeyPos, key: KeyCell)
    requires
        g == (FrameState { sel: g.sel, pressed: g.pressed, ..f }),
    ensures
        face_of(f, pos, key).content == face_of(g, pos, key).content,
        face_of(f, pos, key).glyph == face_of(g, pos, key).glyph,
        face_of(f, pos, key).badge == face_of(g, pos, key).badge,
        face_of(f, pos, key).sublabel == face_of(g, pos, key).sublabel,
{
}

/// The suggestions above the keys.
#[derive(Debug)]
pub struct StripState {
    /// The words on show; a slot may be empty.
    pub visible: Vec<String>,
    /// The shoulder buttons move through the words.
    pub engaged: bool,
    pub highlight_slot: usize,
}

pub open spec fn all_empty(words: Seq<String>) -> bool {
    forall|i: int| 0 <= i < words.len() ==> (#[trigger] words[i])@.len() == 0
}

/// Whether there is nothing to suggest.
pub fn strip_is_empty(words: &Vec<String>) -> (r: bool)
    ensures
        r == all_empty(words@),
{
    let mut i: usize = 0;
    while i < words.len()
        invariant
            i <= words.len(),
            forall|k: int| 0 <= k < i ==> (#[trigger] words@[k])@.len() == 0,
        decreases words.len() - i,
    {
        if chars_of(words[i].as_str()).len() > 0 {
            return false;
        }
        i += 1;
    }
    true
}

/// A suggestion on show.
#[derive(Clone, Copy, Debug, PartialEq, Eq, Structural)]
pub struct Chip {
    pub slot: usize,
    pub selected: bool,
}

/// The chips of the first `n` slots: one for each word, in order.
pub open spec fn chips_upto(words: Seq<String>, engaged: bool, highlight: usize, n: int) -> Seq<Chip>
    decreases n,
{
    if n <= 0 {
        seq![]
    } else if words[n - 1]@.len() == 0 {
        chips_upto(words, engaged, highlight, n - 1)
    } else {
        chips_upto(words, engaged, highlight, n - 1).push(
            Chip { slot: (n - 1) as usize, selected: engaged && n - 1 == highlight },
        )
    }
}

/// `chips_upto` over all slots, computed.
pub fn strip_chips(strip: &StripState) -> (chips: Vec<Chip>)
    ensures
        chips@ == chips_upto(
            strip.visible@,
            strip.engaged,
            strip.highlight_slot,
            strip.visible@.len() as int,
        ),
{
    let mut chips: Vec<Chip> = Vec::new();
    let mut i: usize = 0;
    while i < strip.visible.len()
        invariant
            i <= strip.visible.len(),
            chips@ == chips_upto(strip.visible@, strip.engaged, strip.highlight_slot, i as int),
        decreases strip.visible.len() - i,
    {
        if chars_of(strip.visible[i].as_str()).len() > 0 {
            chips.push(Chip { slot: i, selected: strip.engaged && i == strip.highlight_slot });
        }
        i += 1;
    }
    chips
}

/// A column of the columns look: whether a separator stands before it, whether
/// it holds a word, and whether that word is highlighted.
#[derive(Clone, Copy, Debug, PartialEq, Eq, Structural)]
pub struct Column {
    pub separator: bool,
    pub word: bool,
    pub selected: bool,
}

pub open spec fn column_of(words: Seq<String>, engaged: bool, highlight: usize, i: int) -> Column {
    let word = words[i]@.len() > 0;
    Column { separator: i > 0, word, selected: word && engaged && i == highlight }
}

/// The columns of the columns look, one for each slot.
pub fn strip_columns(strip: &StripState) -> (columns: Vec<Column>)
    ensures
        columns@ == Seq::new(
            strip.visible@.len(),
            |i: int| column_of(strip.visible@, strip.engaged, strip.highlight_slot, i),
        ),
{
    let mut columns: Vec<Column> = Vec::new();
    let mut i: usize = 0;
    while i < strip.visible.len()
        invariant
            i <= strip.visible.len(),
            columns@ == Seq::new(
                i as nat,
                |k: int| column_of(strip.visible@, strip.engaged, strip.highlight_slot, k),
            ),
        decreases strip.visible.len() - i,
    {
        let word: bool = chars_of(strip.visible[i].as_str()).len() > 0;
        columns.push(
            Column {
                separator: i > 0,
                word,
                selected: word && strip.engaged && i == strip.highlight_slot,
            },
        );
        i += 1;
        assert(columns@ =~= Seq::new(
            i as nat,
            |k: int| column_of(strip.visible@, strip.engaged, strip.highlight_slot, k),
        ));
    }
    columns
}

/// The buttons beside the suggestions: the shoulder buttons while they move
/// through the words, else the one that starts it.
pub fn strip_buttons(engaged: bool) -> (hints: Vec<&'static str>)
    ensures
        engaged ==> hints@.len() == 2 && hints@[0]@ == "LB"@ && hints@[1]@ == "RB"@,
        !engaged ==> hints@.len() == 1 && hints@[0]@ == "SELECT"@,
{
    let mut hints: Vec<&'static str> = Vec::new();
    if engaged {
        hints.push("LB");
        hints.push("RB");
    } else {
        hints.push("SELECT");
    }
    hints
}

/// At most one suggestion is highlighted, and only while the shoulder buttons
/// move through them.
pub proof fn one_suggestion_is_highlighted(
    words: Seq<String>,
    engaged: bool,
    highlight: usize,
    n: int,
)
    requires
        0 <= n <= words.len() <= usize::MAX,
    ensures
        forall|i: int|
            0 <= i < chips_upto(words, engaged, highlight, n).len() ==> {
                let c = #[trigger] chips_upto(words, engaged, highlight, n)[i];
                c.slot < n && words[c.slot as int]@.len() > 0 && (c.selected <==> engaged && c.slot
                    == highlight)
            },
        forall|i: int, j: int|
            0 <= i < j < chips_upto(words, engaged, highlight, n).len() ==> (
            #[trigger] chips_upto(words, engaged, highlight, n)[i]).slot < (
            #[trigger] chips_upto(words, engaged, highlight, n)[j]).slot,
    decreases n,
{
    if n > 0 {
        one_suggestion_is_highlighted(words, engaged, highlight, n - 1);
        let init = chips_upto(words, engaged, highlight, n - 1);
        let all = chips_upto(words, engaged, highlight, n);
        assert forall|i: int| 0 <= i < all.len() implies {
            let c = #[trigger] all[i];
            c.slot < n && words[c.slot as int]@.len() > 0 && (c.selected <==> engaged && c.slot
                == highlight)
        } by {
            if i < init.len() {
                assert(all[i] == init[i]);
            }
        }
        assert forall|i: int, j: int| 0 <= i < j < all.len() implies (#[trigger] all[i]).slot < (
        #[trigger] all[j]).slot by {
            assert(all[i] == init[i]);
            if j < init.len() {
                assert(all[j] == init[j]);
            }
        }
    }
}

/// When the suggestions came into view.
pub open spec fn strip_clock_after(shown_at: Option<u64>, shown: bool, now: u64) -> Option<u64> {
    if !shown {
        None
    } else {
        match shown_at {
            Some(t) => Some(t),
            None => Some(now),
        }
    }
}

/// Starts the entrance clock when the suggestions come into view, and drops it
/// when they leave.
pub fn strip_clock(shown_at: Option<u64>, shown: bool, now: u64) -> (r: Option<u64>)
    ensures
        r == strip_clock_after(shown_at, shown, now),
{
    if !shown {
        None
    } else {
        match shown_at {
            Some(t) => Some(t),
            None => Some(now),
        }
    }
}

/// What the prompt card puts on its pill and above it.
#[derive(Clone, Copy, Debug, PartialEq, Eq, Structural)]
pub struct CardPlan {
    /// The stick button's chip on the pill.
    pub chip: Option<VkIcon>,
    /// The text after the chip is drawn.
    pub suffix: bool,
    /// The pad's artwork; without it the generic drawing is used.
    pub art: Option<ControllerArt>,
}

/// What the prompt card shows for a pad.
pub fn card_plan(show_l3: bool, suffix: &str, controller_label: &str) -> (p: CardPlan)
    ensures
        p.chip == (if show_l3 {
            vk_renderer::chip_of(
                if vk_renderer::names_playstation(
                    crate::text::ascii_lower_all(controller_label@),
                ) {
                    ControllerIconFamily::Ps5
                } else {
                    ControllerIconFamily::Xbox
                },
                "L3"@,
            )
        } else {
            None
        }),
        p.suffix == (suffix@.len() > 0),
        p.art == vk_renderer::art_of(controller_label@),
{
    proof {
        reveal_strlit("A");
        reveal_strlit("B");
        reveal_strlit("X");
        reveal_strlit("Y");
        reveal_strlit("LB");
        reveal_strlit("RB");
        reveal_strlit("LT");
        reveal_strlit("RT");
        reveal_strlit("L3");
        assert("L3"@.len() == 2 && "L3"@[1] == '3');
        assert("LB"@[1] == 'B' && "RB"@[1] == 'B' && "LT"@[1] == 'T' && "RT"@[1] == 'T');
    }
    let chip: Option<VkIcon> = if show_l3 {
        Some(ControllerIconFamily::from_label(controller_label).l3_icon())
    } else {
        None
    };
    CardPlan {
        chip,
        suffix: chars_of(suffix).len() > 0,
        art: ControllerArt::from_label(controller_label),
    }
}

/// The animated cloud behind the orb: created on first use, given up for good
/// when it fails.
#[derive(Clone, Copy, Debug, PartialEq, Eq, Structural)]
pub struct NimbusSlot {
    pub present: bool,
    pub failed: bool,
}

/// What preparing the cloud takes.
#[derive(Clone, Copy, Debug, PartialEq, Eq, Structural)]
pub enum NimbusStep {
    Nothing,
    Create,
    Render,
}

impl NimbusSlot {
    /// A cloud that failed is gone.
    pub open spec fn wf(self) -> bool {
        self.failed ==> !self.present
    }

    /// No cloud yet.
    pub fn new() -> (s: Self)
        ensures
            s == (NimbusSlot { present: false, failed: false }),
            s.wf(),
    {
        NimbusSlot { present: false, failed: false }
    }

    pub open spec fn step(self) -> NimbusStep {
        if self.failed {
            NimbusStep::Nothing
        } else if self.present {
            NimbusStep::Render
        } else {
            NimbusStep::Create
        }
    }

    /// What preparing the next frame takes.
    pub fn prepare_nimbus(&self) -> (s: NimbusStep)
        ensures
            s == self.step(),
    {
        if self.failed {
            NimbusStep::Nothing
        } else if self.present {
            NimbusStep::Render
        } else {
            NimbusStep::Create
        }
    }

    /// Takes the outcome of creating or rendering the cloud.
    pub fn settle(&mut self, ok: bool)
        requires
            old(self).wf(),
        ensures
            *final(self) == (if old(self).failed {
                *old(self)
            } else if ok {
                NimbusSlot { present: true, failed: false }
            } else {
                NimbusSlot { present: false, failed: true }
            }),
            final(self).wf(),
    {
        if !self.failed {
            self.present = ok;
            self.failed = !ok;
        }
    }
}

/// A cloud that failed once is never tried again.
pub proof fn failed_cloud_stays_away(s: NimbusSlot)
    requires
        s.wf(),
        s.failed,
    ensures
        s.step() == NimbusStep::Nothing,
        !s.present,
{
}

/// How the cloud moves.
#[derive(Clone, Copy, Debug, PartialEq, Eq, Structural)]
pub enum NimbusMood {
    Idle,
    /// With the level of the microphone.
    Speaking,
    Thinking,
}

pub fn nimbus_mood(phase: VoicePhase) -> (m: NimbusMood)
    ensures
        m == (match phase {
            VoicePhase::Starting => NimbusMood::Idle,
            VoicePhase::Listening => NimbusMood::Speaking,
            VoicePhase::Transcribing => NimbusMood::Thinking,
        }),
{
    match phase {
        VoicePhase::Starting => NimbusMood::Idle,
        VoicePhase::Listening => NimbusMood::Speaking,
        VoicePhase::Transcribing => NimbusMood::Thinking,
    }
}

/// Only one look rewrites a key's text: it shows letters as capitals, and takes all
/// question marks from the front of the symbols key and nothing else.
pub proof fn one_look_rewrites_text(style: VkStyle, action: KeyAction, glyph: Seq<char>)
    ensures
        style == VkStyle::Refined ==> styled(style, action, glyph) == glyph,
        !(action is Char) && action != KeyAction::Symbols ==> styled(style, action, glyph) == glyph,
        style == VkStyle::Apple ==> (action matches KeyAction::Char(c) ==> styled(
            style,
            action,
            glyph,
        ) == if alphabetic(c) { uppercase(glyph) } else { glyph }),
        style == VkStyle::Apple && action == KeyAction::Symbols ==> {
            let t = styled(style, action, glyph);
            &&& t.len() <= glyph.len()
            &&& t == glyph.skip(glyph.len() - t.len())
            &&& t.len() > 0 ==> t[0] != '?'
            &&& forall|i: int| 0 <= i < glyph.len() - t.len() ==> #[trigger] glyph[i] == '?'
        },
{
    questions_go_from_the_front(glyph);
}

proof fn questions_go_from_the_front(s: Seq<char>)
    ensures
        without_questions(s).len() <= s.len(),
        without_questions(s) == s.skip(s.len() - without_questions(s).len()),
        without_questions(s).len() > 0 ==> without_questions(s)[0] != '?',
        forall|i: int| 0 <= i < s.len() - without_questions(s).len() ==> #[trigger] s[i] == '?',
    decreases s.len(),
{
    if s.len() > 0 && s[0] == '?' {
        let rest = s.skip(1);
        let t = without_questions(rest);
        questions_go_from_the_front(rest);
        assert(s.skip(s.len() - t.len()) =~= rest.skip(rest.len() - t.len()));
        assert forall|i: int| 0 <= i < s.len() - t.len() implies #[trigger] s[i] == '?' by {
            if i > 0 {
                assert(rest[i - 1] == s[i]);
            }
        }
    } else {
        assert(s.skip(0) =~= s);
    }
}

/// A face shows the pressed key as pressed, and the small text of every key but the space
/// bar; a key that is not selected is filled by what it does.
pub proof fn faces_show_the_state(f: FrameState, pos: KeyPos, key: KeyCell)
    ensures
        face_of(f, pos, key).pressed <==> f.pressed == Some(pos),
        face_of(f, pos, key).sublabel <==> key.sublabel is Some && key.action != KeyAction::Vk(0x20),
        pos != f.sel ==> (face_of(f, pos, key).fill == FaceFill::Key <==> key.action is Char
            || key.action == KeyAction::Vk(0x20)),
        pos != f.sel ==> (face_of(f, pos, key).fill == FaceFill::Action <==> !(key.action is Char)
            && key.action != KeyAction::Vk(0x20)),
        face_of(f, pos, key).content matches FaceContent::Orb { transcribing } ==> (transcribing
            <==> f.voice_phase == VoicePhase::Transcribing),
{
}

/// The space bar carries the word in one look, and in the other its small text as a
/// caption where it has one, else its drawing; no other key does.
pub proof fn the_space_bar_has_its_own_face(f: FrameState, pos: KeyPos, key: KeyCell)
    ensures
        ({
            let c = face_of(f, pos, key).content;
            let space = key.action == KeyAction::Vk(0x20);
            &&& c == FaceContent::SpaceWord <==> space && f.style == VkStyle::Apple
            &&& c == FaceContent::SpaceCaption <==> space && f.style == VkStyle::Refined
                && key.sublabel is Some
            &&& c == FaceContent::SpaceIcon <==> space && f.style == VkStyle::Refined
                && key.sublabel is None
        }),
{
}

/// A key with text shows it, lower where a small text stands above it, in the font for
/// symbols, for words or for single characters.
pub proof fn text_is_shown_in_its_font(f: FrameState, pos: KeyPos, key: KeyCell)
    requires
        key.action is Char || key.action == KeyAction::Symbols || key.action == KeyAction::Paste
            || key.action == KeyAction::CapsLock || key.action == KeyAction::CloseVk,
    ensures
        ({
            let face = face_of(f, pos, key);
            let t = styled(f.style, key.action, vk_ui::glyph_of(key.action, key.label@).0);
            &&& t.len() == 0 ==> face.content == FaceContent::Blank && face.glyph.len() == 0
            &&& t.len() > 0 ==> face.glyph == t && face.content is Text
            &&& (face.content matches FaceContent::Text { font, lowered } ==> (lowered
                <==> key.sublabel is Some) && (font == FaceFont::Symbol <==> key.action
                == KeyAction::CloseVk) && (font == FaceFont::Word <==> key.action
                != KeyAction::CloseVk && t.len() > 1))
        }),
{
}

/// A key has a badge exactly where a pad button fires it, and every such button has a
/// symbol.
pub proof fn badges_name_the_button(f: FrameState, pos: KeyPos, key: KeyCell)
    ensures
        face_of(f, pos, key).badge == Badge::Absent <==> vk_ui::hint_of(key.action) is None,
        face_of(f, pos, key).badge matches Badge::Icon(icon) ==> vk_renderer::chip_of(
            f.icons,
            vk_ui::hint_of(key.action)->0,
        ) == Some(icon),
        face_of(f, pos, key).badge != Badge::Text,
{
    vk_ui::buttons_fire_one_key(key.action, key.action);
    if let Some(h) = vk_ui::hint_of(key.action) {
        vk_renderer::buttons_have_their_symbols(h);
    }
}

/// A selected face takes the colours of the selection, every other those of its kind; an
/// icon on a badge keeps the text's colour.
pub proof fn selected_faces_take_the_selection(p: VkPalette, fill: FaceFill, selected: bool)
    ensures
        ({
            let c = colors_of(p, fill, selected);
            &&& fill == FaceFill::Accent ==> c.fill == p.accent
            &&& fill == FaceFill::Action ==> c.fill == p.key_action
            &&& fill == FaceFill::Key ==> c.fill == p.key
            &&& selected ==> c.label == p.sel_text && c.dim == p.sel_text && c.badge_text
                == p.sel_text
            &&& !selected ==> c.label == p.text && c.dim == p.text_dim && c.badge_text == p.accent
            &&& c.badge_icon == p.text
        }),
{
}

/// Every word has its chip, at its own slot.
pub proof fn every_word_has_a_chip(
    words: Seq<String>,
    engaged: bool,
    highlight: usize,
    n: int,
    slot: int,
)
    requires
        0 <= slot < n <= words.len() <= usize::MAX,
        words[slot]@.len() > 0,
    ensures
        chips_upto(words, engaged, highlight, n).contains(
            Chip { slot: slot as usize, selected: engaged && slot == highlight },
        ),
    decreases n,
{
    let all = chips_upto(words, engaged, highlight, n);
    let chip = Chip { slot: slot as usize, selected: engaged && slot == highlight };
    if slot == n - 1 {
        assert(all.last() == chip);
    } else {
        every_word_has_a_chip(words, engaged, highlight, n - 1, slot);
        let init = chips_upto(words, engaged, highlight, n - 1);
        let i = choose|i: int| 0 <= i < init.len() && init[i] == chip;
        assert(all[i] == chip);
    }
}

/// A column holds a word exactly where its slot does, all but the first have a separator,
/// and a highlighted one is the engaged slot's.
pub proof fn columns_hold_the_words(words: Seq<String>, engaged: bool, highlight: usize, i: int)
    ensures
        column_of(words, engaged, highlight, i).word <==> words[i]@.len() > 0,
        column_of(words, engaged, highlight, i).separator <==> i > 0,
        column_of(words, engaged, highlight, i).selected <==> words[i]@.len() > 0 && engaged && i
            == highlight,
{
}

/// The entrance runs from the first frame that shows the suggestions, however many
/// follow, and begins anew once they have left.
pub proof fn the_entrance_runs_once(shown_at: Option<u64>, now: u64, later: u64)
    ensures
        strip_clock_after(strip_clock_after(shown_at, true, now), true, later) == strip_clock_after(
            shown_at,
            true,
            now,
        ),
        strip_clock_after(strip_clock_after(shown_at, false, now), true, later) == Some(later),
        strip_clock_after(shown_at, false, now) is None,
        strip_clock_after(None, true, now) == Some(now),
        shown_at is Some ==> strip_clock_after(shown_at, true, now) == shown_at,
{
}

/// The cloud is created where there is none, drawn where there is one, and left alone once
/// it failed.
pub proof fn the_cloud_is_created_once(s: NimbusSlot)
    requires
        s.wf(),
    ensures
        s.step() == NimbusStep::Render <==> s.present,
        s.step() == NimbusStep::Create <==> !s.present && !s.failed,
        s.step() == NimbusStep::Nothing <==> s.failed,
{
}

/// There is nothing to suggest exactly where no slot has a chip.
pub proof fn an_empty_strip_has_no_chips(words: Seq<String>, engaged: bool, highlight: usize)
    requires
        words.len() <= usize::MAX,
    ensures
        all_empty(words) <==> chips_upto(words, engaged, highlight, words.len() as int).len() == 0,
{
    let n = words.len() as int;
    if !all_empty(words) {
        let i = choose|i: int| 0 <= i < words.len() && (#[trigger] words[i])@.len() != 0;
        every_word_has_a_chip(words, engaged, highlight, n, i);
    } else {
        one_suggestion_is_highlighted(words, engaged, highlight, n);
        let chips = chips_upto(words, engaged, highlight, n);
        if chips.len() > 0 {
            let c = chips[0];
            assert(words[c.slot as int]@.len() == 0);
        }
    }
}

} // verus!
