//! The visual selector: given a screen's native visual, whether the rendering
//! extension is present, the extension's advertised picture formats and the
//! screen's visual-to-format catalog, pick the (depth, visual) pair a client
//! should draw translucent content with.
//!
//! The selection matches the canonical 32-bit ARGB layout (8-bit channels,
//! shifts red=16, green=8, blue=0, alpha=24) against the format list, then
//! looks the matched format up in the screen's visual catalog; whenever any
//! step finds nothing, it falls back to the screen's native root visual.

use vstd::prelude::*;

verus! {

/// A screen's read-only descriptor: its native root depth and root visual,
/// and its index in the server's screen list.
#[derive(Clone, Copy, Debug, PartialEq, Eq, Structural)]
pub struct ScreenInfo {
    pub root_depth: u8,
    pub root_visual: u32,
    pub screen_index: usize,
}

/// Whether a picture format stores channels directly or through a palette.
#[derive(Clone, Copy, Debug, PartialEq, Eq, Structural)]
pub enum PictType {
    Direct,
    Indexed,
}

/// One picture format advertised by the rendering extension: its identifier,
/// kind, depth, and per-channel masks and shifts.
#[derive(Clone, Copy, Debug, PartialEq, Eq, Structural)]
pub struct PictFormat {
    pub id: u32,
    pub type_: PictType,
    pub depth: u8,
    pub red_mask: u32,
    pub green_mask: u32,
    pub blue_mask: u32,
    pub alpha_mask: u32,
    pub red_shift: u8,
    pub green_shift: u8,
    pub blue_shift: u8,
    pub alpha_shift: u8,
}

/// A screen's association of one of its visuals with a picture format.
#[derive(Clone, Copy, Debug, PartialEq, Eq, Structural)]
pub struct VisualDescriptor {
    pub visual_id: u32,
    pub format_id: u32,
}

/// The selector's output: the depth and visual a client should use.
#[derive(Clone, Copy, Debug, PartialEq, Eq, Structural)]
pub struct VisualChoice {
    pub depth: u8,
    pub visual_id: u32,
}

/// A direct format of depth 32 whose four channel masks are each exactly
/// `0xff`: 8-bit channels with full mask coverage, no padding bits.
pub open spec fn has_argb32_masks(f: PictFormat) -> bool {
    &&& f.type_ is Direct
    &&& f.depth == 32
    &&& f.red_mask == 0xff
    &&& f.green_mask == 0xff
    &&& f.blue_mask == 0xff
    &&& f.alpha_mask == 0xff
}

/// The canonical little-endian ARGB32 layout: full 8-bit masks and shifts
/// red=16, green=8, blue=0, alpha=24.
pub open spec fn is_argb32(f: PictFormat) -> bool {
    &&& has_argb32_masks(f)
    &&& f.red_shift == 16
    &&& f.green_shift == 8
    &&& f.blue_shift == 0
    &&& f.alpha_shift == 24
}

/// The first format in list order that matches the canonical ARGB32 layout,
/// if any does.
pub open spec fn first_argb32(formats: Seq<PictFormat>) -> Option<PictFormat>
    decreases formats.len(),
{
    if formats.len() == 0 {
        None
    } else if is_argb32(formats[0]) {
        Some(formats[0])
    } else {
        first_argb32(formats.drop_first())
    }
}

/// The first visual in catalog order that is associated with the format
/// `format_id`, if any is.
pub open spec fn first_visual_for(visuals: Seq<VisualDescriptor>, format_id: u32) -> Option<
    VisualDescriptor,
>
    decreases visuals.len(),
{
    if visuals.len() == 0 {
        None
    } else if visuals[0].format_id == format_id {
        Some(visuals[0])
    } else {
        first_visual_for(visuals.drop_first(), format_id)
    }
}

/// The screen's native pair, returned whenever no alpha-capable visual is
/// found.
pub open spec fn fallback_choice(screen: ScreenInfo) -> VisualChoice {
    VisualChoice { depth: screen.root_depth, visual_id: screen.root_visual }
}

/// What the selector returns: the first canonical-ARGB32 format's first
/// associated visual at that format's depth, or the native fallback when the
/// extension is absent, no format matches, or no visual references the
/// matched format.
pub open spec fn chosen_visual(
    screen: ScreenInfo,
    extension_present: bool,
    formats: Seq<PictFormat>,
    visuals: Seq<VisualDescriptor>,
) -> VisualChoice {
    if !extension_present {
        fallback_choice(screen)
    } else {
        match first_argb32(formats) {
            Option::None => fallback_choice(screen),
            Option::Some(f) => match first_visual_for(visuals, f.id) {
                Option::None => fallback_choice(screen),
                Option::Some(v) => VisualChoice { depth: f.depth, visual_id: v.visual_id },
            },
        }
    }
}

/// Whether this format matches the canonical ARGB32 layout.
pub fn is_argb32_format(f: &PictFormat) -> (r: bool)
    ensures
        r == is_argb32(*f),
{
    f.type_ == PictType::Direct && f.depth == 32 && f.red_mask == 0xff && f.green_mask == 0xff
        && f.blue_mask == 0xff && f.alpha_mask == 0xff && f.red_shift == 16 && f.green_shift == 8
        && f.blue_shift == 0 && f.alpha_shift == 24
}

proof fn lemma_first_argb32_at(s: Seq<PictFormat>, i: int)
    requires
        0 <= i < s.len(),
        is_argb32(s[i]),
        forall|j: int| 0 <= j < i ==> !is_argb32(s[j]),
    ensures
        first_argb32(s) == Some(s[i]),
    decreases i,
{
    if i > 0 {
        lemma_first_argb32_at(s.drop_first(), i - 1);
    }
}

proof fn lemma_first_argb32_none(s: Seq<PictFormat>)
    requires
        forall|j: int| 0 <= j < s.len() ==> !is_argb32(s[j]),
    ensures
        first_argb32(s) is None,
    decreases s.len(),
{
    if s.len() > 0 {
        lemma_first_argb32_none(s.drop_first());
    }
}

proof fn lemma_first_visual_at(s: Seq<VisualDescriptor>, format_id: u32, i: int)
    requires
        0 <= i < s.len(),
        s[i].format_id == format_id,
        forall|j: int| 0 <= j < i ==> s[j].format_id != format_id,
    ensures
        first_visual_for(s, format_id) == Some(s[i]),
    decreases i,
{
    if i > 0 {
        lemma_first_visual_at(s.drop_first(), format_id, i - 1);
    }
}

proof fn lemma_first_visual_none(s: Seq<VisualDescriptor>, format_id: u32)
    requires
        forall|j: int| 0 <= j < s.len() ==> s[j].format_id != format_id,
    ensures
        first_visual_for(s, format_id) is None,
    decreases s.len(),
{
    if s.len() > 0 {
        lemma_first_visual_none(s.drop_first(), format_id);
    }
}

proof fn lemma_first_argb32_sound(s: Seq<PictFormat>)
    ensures
        first_argb32(s) is Some ==> is_argb32(first_argb32(s)->Some_0),
    decreases s.len(),
{
    if s.len() > 0 && !is_argb32(s[0]) {
        lemma_first_argb32_sound(s.drop_first());
    }
}

proof fn lemma_first_argb32_exists(s: Seq<PictFormat>)
    requires
        exists|i: int| 0 <= i < s.len() && is_argb32(s[i]),
    ensures
        first_argb32(s) is Some,
    decreases s.len(),
{
    if !is_argb32(s[0]) {
        let i = choose|i: int| 0 <= i < s.len() && is_argb32(s[i]);
        assert(s.drop_first()[i - 1] == s[i]);
        lemma_first_argb32_exists(s.drop_first());
    }
}

proof fn lemma_first_visual_sound(s: Seq<VisualDescriptor>, format_id: u32)
    ensures
        first_visual_for(s, format_id) is Some ==> {
            let v = first_visual_for(s, format_id)->Some_0;
            &&& v.format_id == format_id
            &&& exists|j: int| 0 <= j < s.len() && s[j] == v
        },
    decreases s.len(),
{
    if s.len() > 0 && s[0].format_id != format_id {
        lemma_first_visual_sound(s.drop_first(), format_id);
        if first_visual_for(s, format_id) is Some {
            let v = first_visual_for(s, format_id)->Some_0;
            let k = choose|k: int| 0 <= k < s.drop_first().len() && s.drop_first()[k] == v;
            assert(s[k + 1] == v);
        }
    }
}

proof fn lemma_first_visual_exists(s: Seq<VisualDescriptor>, format_id: u32)
    requires
        exists|j: int| 0 <= j < s.len() && s[j].format_id == format_id,
    ensures
        first_visual_for(s, format_id) is Some,
    decreases s.len(),
{
    if s[0].format_id != format_id {
        let j = choose|j: int| 0 <= j < s.len() && s[j].format_id == format_id;
        assert(s.drop_first()[j - 1] == s[j]);
        lemma_first_visual_exists(s.drop_first(), format_id);
    }
}

/// When the rendering extension is absent, the selector returns exactly the
/// screen's native (root depth, root visual) pair, whatever the catalogs
/// hold.
pub proof fn lemma_fallback_when_extension_absent(
    screen: ScreenInfo,
    formats: Seq<PictFormat>,
    visuals: Seq<VisualDescriptor>,
)
    ensures
        chosen_visual(screen, false, formats, visuals) == fallback_choice(screen),
{
}

/// When no format satisfies both the mask and the shift requirements, the
/// selector returns the native fallback pair even though the extension is
/// present.
pub proof fn lemma_fallback_when_no_argb32(
    screen: ScreenInfo,
    formats: Seq<PictFormat>,
    visuals: Seq<VisualDescriptor>,
)
    requires
        forall|i: int| 0 <= i < formats.len() ==> !is_argb32(formats[i]),
    ensures
        chosen_visual(screen, true, formats, visuals) == fallback_choice(screen),
{
    lemma_first_argb32_none(formats);
}

/// When a format matches the canonical ARGB32 layout but no visual in the
/// catalog references the matched format's id, the selector returns the
/// native fallback pair.
pub proof fn lemma_fallback_when_no_visual(
    screen: ScreenInfo,
    formats: Seq<PictFormat>,
    visuals: Seq<VisualDescriptor>,
)
    requires
        first_argb32(formats) is Some,
        forall|j: int|
            0 <= j < visuals.len() ==> visuals[j].format_id != first_argb32(formats)->Some_0.id,
    ensures
        chosen_visual(screen, true, formats, visuals) == fallback_choice(screen),
{
    lemma_first_visual_none(visuals, first_argb32(formats)->Some_0.id);
}

/// When entry `i` is the first format matching the canonical ARGB32 layout
/// and entry `j` is the first visual referencing that format's id, the
/// selector returns depth 32 with that visual's id — whatever other entries
/// stand in either list.
pub proof fn lemma_argb32_match_selected(
    screen: ScreenInfo,
    formats: Seq<PictFormat>,
    visuals: Seq<VisualDescriptor>,
    i: int,
    j: int,
)
    requires
        0 <= i < formats.len(),
        is_argb32(formats[i]),
        forall|p: int| 0 <= p < i ==> !is_argb32(formats[p]),
        0 <= j < visuals.len(),
        visuals[j].format_id == formats[i].id,
        forall|q: int| 0 <= q < j ==> visuals[q].format_id != formats[i].id,
    ensures
        chosen_visual(screen, true, formats, visuals) == (VisualChoice {
            depth: 32,
            visual_id: visuals[j].visual_id,
        }),
{
    lemma_first_argb32_at(formats, i);
    lemma_first_visual_at(visuals, formats[i].id, j);
}

/// When some format matches the canonical ARGB32 layout and some visual
/// references the selected (first matching) format's id, the selector
/// returns depth 32, and the returned visual id is that of a catalog entry
/// referencing the selected format.
pub proof fn lemma_argb32_present_selects_depth32(
    screen: ScreenInfo,
    formats: Seq<PictFormat>,
    visuals: Seq<VisualDescriptor>,
)
    requires
        exists|i: int| 0 <= i < formats.len() && is_argb32(formats[i]),
        exists|j: int|
            0 <= j < visuals.len() && visuals[j].format_id == first_argb32(formats)->Some_0.id,
    ensures
        chosen_visual(screen, true, formats, visuals).depth == 32,
        exists|j: int|
            0 <= j < visuals.len() && visuals[j].format_id == first_argb32(formats)->Some_0.id
                && visuals[j].visual_id == chosen_visual(screen, true, formats, visuals).visual_id,
{
    lemma_first_argb32_exists(formats);
    lemma_first_argb32_sound(formats);
    let f = first_argb32(formats)->Some_0;
    lemma_first_visual_exists(visuals, f.id);
    lemma_first_visual_sound(visuals, f.id);
}

/// The selector never returns a null depth or a null visual identifier,
/// provided the screen's own native pair is non-null and every visual in the
/// catalog carries a non-null identifier.
pub proof fn lemma_choice_never_null(
    screen: ScreenInfo,
    extension_present: bool,
    formats: Seq<PictFormat>,
    visuals: Seq<VisualDescriptor>,
)
    requires
        screen.root_depth != 0,
        screen.root_visual != 0,
        forall|j: int| 0 <= j < visuals.len() ==> visuals[j].visual_id != 0,
    ensures
        chosen_visual(screen, extension_present, formats, visuals).depth != 0,
        chosen_visual(screen, extension_present, formats, visuals).visual_id != 0,
{
    lemma_first_argb32_sound(formats);
    if first_argb32(formats) is Some {
        lemma_first_visual_sound(visuals, first_argb32(formats)->Some_0.id);
    }
}

/// Choose the visual for `screen`. `formats` is the full format list the
/// rendering extension advertised and `visuals` is the screen's visual
/// catalog, flattened over its depth groups in iteration order; both are
/// ignored when `extension_present` is false.
pub fn choose_visual(
    screen: &ScreenInfo,
    extension_present: bool,
    formats: &Vec<PictFormat>,
    visuals: &Vec<VisualDescriptor>,
) -> (r: VisualChoice)
    ensures
        r == chosen_visual(*screen, extension_present, formats@, visuals@),
{
    let fallback = VisualChoice { depth: screen.root_depth, visual_id: screen.root_visual };
    if !extension_present {
        return fallback;
    }
    let mut i: usize = 0;
    while i < formats.len()
        invariant
            i <= formats.len(),
            forall|j: int| 0 <= j < i ==> !is_argb32(formats@[j]),
        ensures
            i <= formats.len(),
            forall|j: int| 0 <= j < i ==> !is_argb32(formats@[j]),
            i < formats.len() ==> is_argb32(formats@[i as int]),
        decreases formats.len() - i,
    {
        if is_argb32_format(&formats[i]) {
            break;
        }
        i = i + 1;
    }
    if i >= formats.len() {
        proof {
            lemma_first_argb32_none(formats@);
        }
        return fallback;
    }
    let format = formats[i];
    proof {
        lemma_first_argb32_at(formats@, i as int);
    }
    let mut k: usize = 0;
    while k < visuals.len()
        invariant
            k <= visuals.len(),
            extension_present,
            first_argb32(formats@) == Some(format),
            forall|j: int| 0 <= j < k ==> visuals@[j].format_id != format.id,
        decreases visuals.len() - k,
    {
        if visuals[k].format_id == format.id {
            proof {
                lemma_first_visual_at(visuals@, format.id, k as int);
            }
            return VisualChoice { depth: format.depth, visual_id: visuals[k].visual_id };
        }
        k = k + 1;
    }
    proof {
        lemma_first_visual_none(visuals@, format.id);
    }
    fallback
}

} // verus!
