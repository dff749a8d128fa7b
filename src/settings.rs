//! The catalog of game settings that the editor shows and writes.
use vstd::prelude::*;
use crate::menu::PADDING;

verus! {

/// One choice of a level setting: the label shown and the value written.
pub struct Selectable {
    pub nice_name: String,
    pub config_name: String,
}

impl Selectable {
    /// A choice labelled `nice_name` that writes `config_name`.
    pub fn new(nice_name: String, config_name: String) -> (r: Self)
        ensures
            r.nice_name@ == nice_name@,
            r.config_name@ == config_name@,
    {
        Self { nice_name, config_name }
    }
}

/// What kind of value a setting holds, with its current value.
pub enum SettingType {
    /// Selected index, the choices, and the video memory (MB) that each step
    /// up from one choice to the next costs.
    Level(usize, Vec<Selectable>, Vec<usize>),
    /// Enabled or not.
    OnOff(bool),
    /// Off (0), on (1) or half (2).
    OnHalfOff(usize),
    /// Current factor (0 for off) and the largest factor.
    Multiplier(usize, usize),
    /// Pixel count, step, and whether the setting is the horizontal one.
    Slider(usize, usize, bool),
}

/// The section of the configuration document that a setting belongs to.
#[derive(Debug, Clone, Copy, PartialEq, Eq, Structural)]
pub enum XMLSection {
    Graphics,
    Video,
    AdvancedGraphics,
}

/// One entry of the editor: the element name it is written under, the label
/// shown, its value, and the document section it belongs to.
pub struct Setting {
    pub tag: String,
    pub nice_name: String,
    pub setting_type: SettingType,
    pub section: XMLSection,
}

/// Label and configuration value of each choice.
pub open spec fn labels(opts: Seq<Selectable>) -> Seq<(Seq<char>, Seq<char>)> {
    opts.map_values(|o: Selectable| (o.nice_name@, o.config_name@))
}

/// `t` is a level setting at its first choice, with choices `opts` and step
/// costs `steps`.
pub open spec fn is_fresh_level(
    t: SettingType,
    opts: Seq<(Seq<char>, Seq<char>)>,
    steps: Seq<usize>,
) -> bool {
    match t {
        SettingType::Level(sel, o, v) => sel == 0 && labels(o@) == opts && v@ == steps,
        _ => false,
    }
}

/// The invariant of a setting's value: a level's selection names one of its
/// choices, with a step cost for each step up; an off/on/half value is one of
/// its three states.
pub open spec fn setting_type_wf(t: SettingType) -> bool {
    match t {
        SettingType::Level(sel, o, v) => sel < o.len() && o.len() <= v.len() + 1,
        SettingType::OnHalfOff(v) => v <= 2,
        _ => true,
    }
}

/// The invariant of a setting.
pub open spec fn setting_wf(s: Setting) -> bool {
    setting_type_wf(s.setting_type)
}

/// The shape of a setting's fields other than its value.
pub open spec fn named(r: Setting, section: XMLSection, tag: &str, nice_name: &str) -> bool {
    &&& r.tag@ == tag@
    &&& r.nice_name@ == nice_name@
    &&& r.section == section
}

fn choice(nice_name: &str, config_name: &str) -> (r: Selectable)
    ensures
        r.nice_name@ == nice_name@,
        r.config_name@ == config_name@,
{
    Selectable::new(nice_name.to_owned(), config_name.to_owned())
}

fn labelled(section: XMLSection, tag: &str, nice_name: &str, setting_type: SettingType) -> (r:
    Setting)
    ensures
        named(r, section, tag, nice_name),
        r.setting_type == setting_type,
{
    Setting { nice_name: nice_name.to_owned(), tag: tag.to_owned(), setting_type, section }
}

/// Low (shown as off), medium, high.
pub open spec fn off_medium_high_labels() -> Seq<(Seq<char>, Seq<char>)> {
    seq![
        ("Low (OFF)"@, "kSettingLevel_Low"@),
        ("Medium"@, "kSettingLevel_Medium"@),
        ("High"@, "kSettingLevel_High"@),
    ]
}

/// Low (shown as off), medium, high, ultra.
pub open spec fn off_medium_high_ultra_labels() -> Seq<(Seq<char>, Seq<char>)> {
    seq![
        ("Low (OFF)"@, "kSettingLevel_Low"@),
        ("Medium"@, "kSettingLevel_Medium"@),
        ("High"@, "kSettingLevel_High"@),
        ("Ultra"@, "kSettingLevel_Ultra"@),
    ]
}

/// Low, medium, high.
pub open spec fn low_medium_high_labels() -> Seq<(Seq<char>, Seq<char>)> {
    seq![
        ("Low"@, "kSettingLevel_Low"@),
        ("Medium"@, "kSettingLevel_Medium"@),
        ("High"@, "kSettingLevel_High"@),
    ]
}

/// Low, medium, high, ultra.
pub open spec fn low_medium_high_ultra_labels() -> Seq<(Seq<char>, Seq<char>)> {
    seq![
        ("Low"@, "kSettingLevel_Low"@),
        ("Medium"@, "kSettingLevel_Medium"@),
        ("High"@, "kSettingLevel_High"@),
        ("Ultra"@, "kSettingLevel_Ultra"@),
    ]
}

/// The graphics programming interfaces.
pub open spec fn api_labels() -> Seq<(Seq<char>, Seq<char>)> {
    seq![
        ("Vulcan"@, "kSettingAPI_Vulcan"@),
        ("DirectX12"@, "kSettingAPI_DX12"@),
    ]
}

impl Setting {
    /// A level setting: low (shown as off), medium, high.
    pub fn off_medium_high(
        section: XMLSection,
        tag: &str,
        nice_name: &str,
        step1: usize,
        step2: usize,
    ) -> (r: Self)
        ensures
            named(r, section, tag, nice_name),
            is_fresh_level(r.setting_type, off_medium_high_labels(), seq![step1, step2]),
            setting_wf(r),
    {
        let options = vec![
            choice("Low (OFF)", "kSettingLevel_Low"),
            choice("Medium", "kSettingLevel_Medium"),
            choice("High", "kSettingLevel_High"),
        ];
        assert(labels(options@) =~= off_medium_high_labels());
        let vram = vec![step1, step2];
        labelled(section, tag, nice_name, SettingType::Level(0, options, vram))
    }

    /// A level setting: low (shown as off), medium, high, ultra.
    pub fn off_medium_high_ultra(
        section: XMLSection,
        tag: &str,
        nice_name: &str,
        step1: usize,
        step2: usize,
        step3: usize,
    ) -> (r: Self)
        ensures
            named(r, section, tag, nice_name),
            is_fresh_level(r.setting_type, off_medium_high_ultra_labels(), seq![step1, step2, step3]),
            setting_wf(r),
    {
        let options = vec![
            choice("Low (OFF)", "kSettingLevel_Low"),
            choice("Medium", "kSettingLevel_Medium"),
            choice("High", "kSettingLevel_High"),
            choice("Ultra", "kSettingLevel_Ultra"),
        ];
        assert(labels(options@) =~= off_medium_high_ultra_labels());
        let vram = vec![step1, step2, step3];
        labelled(section, tag, nice_name, SettingType::Level(0, options, vram))
    }

    /// A switch, on or off at first as `on_by_default` says.
    pub fn on_off(section: XMLSection, tag: &str, nice_name: &str, on_by_default: bool) -> (r:
        Self)
        ensures
            named(r, section, tag, nice_name),
            r.setting_type == SettingType::OnOff(on_by_default),
            setting_wf(r),
    {
        labelled(section, tag, nice_name, SettingType::OnOff(on_by_default))
    }

    /// An off/on/half setting, off at first.
    pub fn on_half_off(section: XMLSection, tag: &str, nice_name: &str) -> (r: Self)
        ensures
            named(r, section, tag, nice_name),
            r.setting_type == SettingType::OnHalfOff(0),
            setting_wf(r),
    {
        labelled(section, tag, nice_name, SettingType::OnHalfOff(0))
    }

    /// A low/medium/high/ultra setting whose steps cost no video memory.
    pub fn low_medium_high_ultra_no_step(section: XMLSection, tag: &str, nice_name: &str) -> (r:
        Self)
        ensures
            named(r, section, tag, nice_name),
            is_fresh_level(r.setting_type, low_medium_high_ultra_labels(), seq![0usize, 0, 0]),
            setting_wf(r),
    {
        Self::low_medium_high_ultra(section, tag, nice_name, 0, 0, 0)
    }

    /// A level setting: low, medium, high, ultra.
    pub fn low_medium_high_ultra(
        section: XMLSection,
        tag: &str,
        nice_name: &str,
        step1: usize,
        step2: usize,
        step3: usize,
    ) -> (r: Self)
        ensures
            named(r, section, tag, nice_name),
            is_fresh_level(r.setting_type, low_medium_high_ultra_labels(), seq![step1, step2, step3]),
            setting_wf(r),
    {
        let options = vec![
            choice("Low", "kSettingLevel_Low"),
            choice("Medium", "kSettingLevel_Medium"),
            choice("High", "kSettingLevel_High"),
            choice("Ultra", "kSettingLevel_Ultra"),
        ];
        assert(labels(options@) =~= low_medium_high_ultra_labels());
        let vram = vec![step1, step2, step3];
        labelled(section, tag, nice_name, SettingType::Level(0, options, vram))
    }

    /// A pixel count that moves by `jump`.
    pub fn screen_pixels(
        section: XMLSection,
        tag: &str,
        nice_name: &str,
        curr_val: usize,
        jump: usize,
        is_horizontal: bool,
    ) -> (r: Self)
        ensures
            named(r, section, tag, nice_name),
            r.setting_type == SettingType::Slider(curr_val, jump, is_horizontal),
            setting_wf(r),
    {
        labelled(section, tag, nice_name, SettingType::Slider(curr_val, jump, is_horizontal))
    }

    /// The choice of graphics programming interface.
    pub fn api_options(
        section: XMLSection,
        tag: &str,
        nice_name: &str,
    ) -> (r: Self)
        ensures
            named(r, section, tag, nice_name),
            is_fresh_level(r.setting_type, api_labels(), seq![0usize, 0]),
            setting_wf(r),
    {
        let options = vec![
            choice("Vulcan", "kSettingAPI_Vulcan"),
            choice("DirectX12", "kSettingAPI_DX12"),
        ];
        assert(labels(options@) =~= api_labels());
        let vram = vec![0, 0];
        labelled(section, tag, nice_name, SettingType::Level(0, options, vram))
    }

    /// A low/medium/high setting whose steps cost no video memory.
    pub fn low_medium_high_no_step(section: XMLSection, tag: &str, nice_name: &str) -> (r: Self)
        ensures
            named(r, section, tag, nice_name),
            is_fresh_level(r.setting_type, low_medium_high_labels(), seq![0usize, 0]),
            setting_wf(r),
    {
        Self::low_medium_high(section, tag, nice_name, 0, 0)
    }

    /// A multiplier, off at first, that goes up to `max_factor`.
    pub fn multiplier(section: XMLSection, tag: &str, nice_name: &str, max_factor: usize) -> (r:
        Self)
        ensures
            named(r, section, tag, nice_name),
            r.setting_type == SettingType::Multiplier(0, max_factor),
            setting_wf(r),
    {
        labelled(section, tag, nice_name, SettingType::Multiplier(0, max_factor))
    }

    /// A level setting: low, medium, high.
    pub fn low_medium_high(
        section: XMLSection,
        tag: &str,
        nice_name: &str,
        step1: usize,
        step2: usize,
    ) -> (r: Self)
        ensures
            named(r, section, tag, nice_name),
            is_fresh_level(r.setting_type, low_medium_high_labels(), seq![step1, step2]),
            setting_wf(r),
    {
        let options = vec![
            choice("Low", "kSettingLevel_Low"),
            choice("Medium", "kSettingLevel_Medium"),
            choice("High", "kSettingLevel_High"),
        ];
        assert(labels(options@) =~= low_medium_high_labels());
        let vram = vec![step1, step2];
        labelled(section, tag, nice_name, SettingType::Level(0, options, vram))
    }
}

/// A level's selection names one of its choices.
pub open spec fn selection_in_range(t: SettingType) -> bool {
    t matches SettingType::Level(sel, opts, _) ==> sel < opts.len()
}

/// Every level of `s` has its selection among its choices.
pub open spec fn selections_in_range(s: Seq<Setting>) -> bool {
    forall|i: int| 0 <= i < s.len() ==> #[trigger] selection_in_range(s[i].setting_type)
}

/// Well-formed settings have their selections in range.
pub proof fn lemma_wf_selections(s: Seq<Setting>)
    requires
        all_wf(s),
    ensures
        selections_in_range(s),
{
    assert forall|i: int| 0 <= i < s.len() implies #[trigger] selection_in_range(
        s[i].setting_type,
    ) by {
        assert(setting_wf(s[i]));
    }
}

/// A setting's value, with each choice of a level as its label and
/// configuration value.
pub enum ValueView {
    Level(usize, Seq<(Seq<char>, Seq<char>)>, Seq<usize>),
    OnOff(bool),
    OnHalfOff(usize),
    Multiplier(usize, usize),
    Slider(usize, usize, bool),
}

pub open spec fn value_view(t: SettingType) -> ValueView {
    match t {
        SettingType::Level(sel, o, v) => ValueView::Level(sel, labels(o@), v@),
        SettingType::OnOff(e) => ValueView::OnOff(e),
        SettingType::OnHalfOff(v) => ValueView::OnHalfOff(v),
        SettingType::Multiplier(v, m) => ValueView::Multiplier(v, m),
        SettingType::Slider(v, j, h) => ValueView::Slider(v, j, h),
    }
}

/// A setting as tag, label, section and value.
pub open spec fn setting_view(s: Setting) -> (Seq<char>, Seq<char>, XMLSection, ValueView) {
    (s.tag@, s.nice_name@, s.section, value_view(s.setting_type))
}

pub open spec fn views_of(s: Seq<Setting>) -> Seq<(Seq<char>, Seq<char>, XMLSection, ValueView)> {
    s.map_values(|x: Setting| setting_view(x))
}

/// The catalog, in the game's order: video first, then graphics, then
/// advanced graphics.
pub open spec fn catalog() -> Seq<(Seq<char>, Seq<char>, XMLSection, ValueView)> {
    seq![
        ("screenWidthWindowed"@, "Width Pixels"@, XMLSection::Video, ValueView::Slider(1024, 8, true)),
        ("screenHeightWindowed"@, "Height Pixels"@, XMLSection::Video, ValueView::Slider(768, 8, false)),
        ("tripleBuffered"@, "Triple Buffering"@, XMLSection::Video, ValueView::OnOff(true)),
        ("vSync"@, "VSync"@, XMLSection::Video, ValueView::OnHalfOff(0)),
        ("textureQuality"@, "Texture Quality"@, XMLSection::Graphics, ValueView::Level(0, low_medium_high_ultra_labels(), seq![164usize, 185, 726])),
        ("anisotropicFiltering"@, "Anisotropic Filtering"@, XMLSection::Graphics, ValueView::Multiplier(0, 16)),
        ("lightingQuality"@, "Lighting Quality"@, XMLSection::Graphics, ValueView::Level(0, low_medium_high_ultra_labels(), seq![0usize, 0, 0])),
        ("ambientLightingQuality"@, "Ambient Lighting Quality"@, XMLSection::Graphics, ValueView::Level(0, low_medium_high_ultra_labels(), seq![1usize, 9, 0])),
        ("shadowQuality"@, "Shadow Quality"@, XMLSection::Graphics, ValueView::Level(0, low_medium_high_ultra_labels(), seq![72usize, 11, 333])),
        ("farShadowQuality"@, "Far Shadow Quality"@, XMLSection::Graphics, ValueView::Level(0, low_medium_high_ultra_labels(), seq![0usize, 1, 1])),
        ("ssao"@, "Screen Space Ambient Occlusion"@, XMLSection::Graphics, ValueView::Level(0, off_medium_high_ultra_labels(), seq![11usize, 4, 0])),
        ("reflectionQuality"@, "Reflection Quality"@, XMLSection::Graphics, ValueView::Level(0, low_medium_high_ultra_labels(), seq![29usize, 111, 460])),
        ("mirrorQuality"@, "Mirror Quality"@, XMLSection::Graphics, ValueView::Level(0, low_medium_high_ultra_labels(), seq![0usize, 9, 14])),
        ("waterQuality"@, "Water Quality"@, XMLSection::Graphics, ValueView::Level(0, low_medium_high_labels(), seq![13usize, 92])),
        ("volumetricsQuality"@, "Volumetrics Quality"@, XMLSection::Graphics, ValueView::Level(0, low_medium_high_ultra_labels(), seq![16usize, 67, 111])),
        ("particleQuality"@, "Particle Quality"@, XMLSection::Graphics, ValueView::Level(0, low_medium_high_ultra_labels(), seq![0usize, 0, 0])),
        ("tessellation"@, "Tessellation Quality"@, XMLSection::Graphics, ValueView::Level(0, low_medium_high_ultra_labels(), seq![0usize, 0, 0])),
        ("taa"@, "TAA Quality"@, XMLSection::Graphics, ValueView::Level(0, off_medium_high_labels(), seq![6usize, 0])),
        ("fxaaEnabled"@, "FXAA"@, XMLSection::Graphics, ValueView::OnOff(false)),
        ("msaa"@, "MSAA"@, XMLSection::Graphics, ValueView::Multiplier(0, 8)),
        ("hdr"@, "HDR"@, XMLSection::Graphics, ValueView::OnOff(true)),
        ("hdrFilmicMode"@, "HDR Filmic Mode"@, XMLSection::Graphics, ValueView::OnOff(true)),
        ("API"@, "Graphical API"@, XMLSection::AdvancedGraphics, ValueView::Level(0, api_labels(), seq![0usize, 0])),
        ("treeQuality"@, "Tree Quality"@, XMLSection::AdvancedGraphics, ValueView::Level(0, low_medium_high_ultra_labels(), seq![0usize, 0, 0])),
        ("decalQuality"@, "Decal Quality"@, XMLSection::AdvancedGraphics, ValueView::Level(0, low_medium_high_ultra_labels(), seq![0usize, 0, 0])),
        ("furDisplayQuality"@, "Fur Quality"@, XMLSection::AdvancedGraphics, ValueView::Level(0, off_medium_high_labels(), seq![0usize, 0])),
        ("motionBlur"@, "Motion Blur"@, XMLSection::AdvancedGraphics, ValueView::OnOff(true)),
        ("waterReflectionSSR"@, "Water Reflection SSR"@, XMLSection::AdvancedGraphics, ValueView::OnOff(true)),
        ("waterRefractionQuality"@, "Water Refraction Quality"@, XMLSection::AdvancedGraphics, ValueView::Level(0, low_medium_high_labels(), seq![2usize, 5])),
        ("waterReflectionQuality"@, "Water Reflection Quality"@, XMLSection::AdvancedGraphics, ValueView::Level(0, low_medium_high_labels(), seq![3usize, 15])),
        ("particleLightingQuality"@, "Particle Lighting Quality"@, XMLSection::AdvancedGraphics, ValueView::Level(0, low_medium_high_ultra_labels(), seq![18usize, 0, 0])),
        ("shadowSoftShadows"@, "Soft Shadows"@, XMLSection::AdvancedGraphics, ValueView::Level(0, off_medium_high_ultra_labels(), seq![0usize, 0, 0])),
        ("treeTessellationEnabled"@, "Tree Tessellation"@, XMLSection::AdvancedGraphics, ValueView::OnOff(false)),
        ("snowGlints"@, "Snow Glints"@, XMLSection::AdvancedGraphics, ValueView::OnOff(true)),
        ("damageModelsDisabled"@, "Disable Damage Model"@, XMLSection::AdvancedGraphics, ValueView::OnOff(false)),
        ("POMQuality"@, "Parallax Quality"@, XMLSection::AdvancedGraphics, ValueView::Level(0, low_medium_high_ultra_labels(), seq![0usize, 0, 0])),
        ("deepsurfaceQuality"@, "Deep Surface Quality"@, XMLSection::AdvancedGraphics, ValueView::Level(0, low_medium_high_labels(), seq![0usize, 0])),
    ]
}

/// Every setting of `s` is well formed.
pub open spec fn all_wf(s: Seq<Setting>) -> bool {
    forall|i: int| 0 <= i < s.len() ==> #[trigger] setting_wf(s[i])
}

/// Every label of `s` is non-empty and fits the menu's name column.
pub open spec fn labels_fit(s: Seq<Setting>) -> bool {
    forall|i: int| 0 <= i < s.len() ==> 0 < #[trigger] s[i].nice_name@.len() <= PADDING
}

fn push_setting(v: &mut Vec<Setting>, s: Setting)
    requires
        all_wf(old(v)@),
        labels_fit(old(v)@),
        setting_wf(s),
        0 < s.nice_name@.len() <= PADDING,
    ensures
        all_wf(final(v)@),
        labels_fit(final(v)@),
        final(v)@ == old(v)@.push(s),
        views_of(final(v)@) == views_of(old(v)@).push(setting_view(s)),
{
    v.push(s);
    assert(views_of(v@) =~= views_of(old(v)@).push(setting_view(s)));
}

/// The settings the editor offers: exactly the catalog, every one well formed
/// with its label fitting the name column. The first two are the windowed
/// width and height.
pub fn get_settings() -> (r: Vec<Setting>)
    ensures
        r@.len() == 37,
        views_of(r@) == catalog(),
        all_wf(r@),
        selections_in_range(r@),
        labels_fit(r@),
        r@[0].setting_type == SettingType::Slider(1024, 8, true),
        r@[1].setting_type == SettingType::Slider(768, 8, false),
{
    let mut v: Vec<Setting> = Vec::new();
    assert(views_of(v@) =~= Seq::empty());
    proof {
        reveal_strlit("Width Pixels");
    }
    push_setting(&mut v, Setting::screen_pixels(XMLSection::Video, "screenWidthWindowed", "Width Pixels", 1024, 8, true));
    proof {
        reveal_strlit("Height Pixels");
    }
    push_setting(&mut v, Setting::screen_pixels(XMLSection::Video, "screenHeightWindowed", "Height Pixels", 768, 8, false));
    proof {
        reveal_strlit("Triple Buffering");
    }
    push_setting(&mut v, Setting::on_off(XMLSection::Video, "tripleBuffered", "Triple Buffering", true));
    proof {
        reveal_strlit("VSync");
    }
    push_setting(&mut v, Setting::on_half_off(XMLSection::Video, "vSync", "VSync"));
    proof {
        reveal_strlit("Texture Quality");
    }
    push_setting(&mut v, Setting::low_medium_high_ultra(XMLSection::Graphics, "textureQuality", "Texture Quality", 164, 185, 726));
    proof {
        reveal_strlit("Anisotropic Filtering");
    }
    push_setting(&mut v, Setting::multiplier(XMLSection::Graphics, "anisotropicFiltering", "Anisotropic Filtering", 16));
    proof {
        reveal_strlit("Lighting Quality");
    }
    push_setting(&mut v, Setting::low_medium_high_ultra_no_step(XMLSection::Graphics, "lightingQuality", "Lighting Quality"));
    proof {
        reveal_strlit("Ambient Lighting Quality");
    }
    push_setting(&mut v, Setting::low_medium_high_ultra(XMLSection::Graphics, "ambientLightingQuality", "Ambient Lighting Quality", 1, 9, 0));
    proof {
        reveal_strlit("Shadow Quality");
    }
    push_setting(&mut v, Setting::low_medium_high_ultra(XMLSection::Graphics, "shadowQuality", "Shadow Quality", 72, 11, 333));
    proof {
        reveal_strlit("Far Shadow Quality");
    }
    push_setting(&mut v, Setting::low_medium_high_ultra(XMLSection::Graphics, "farShadowQuality", "Far Shadow Quality", 0, 1, 1));
    proof {
        reveal_strlit("Screen Space Ambient Occlusion");
    }
    push_setting(&mut v, Setting::off_medium_high_ultra(XMLSection::Graphics, "ssao", "Screen Space Ambient Occlusion", 11, 4, 0));
    proof {
        reveal_strlit("Reflection Quality");
    }
    push_setting(&mut v, Setting::low_medium_high_ultra(XMLSection::Graphics, "reflectionQuality", "Reflection Quality", 29, 111, 460));
    proof {
        reveal_strlit("Mirror Quality");
    }
    push_setting(&mut v, Setting::low_medium_high_ultra(XMLSection::Graphics, "mirrorQuality", "Mirror Quality", 0, 9, 14));
    proof {
        reveal_strlit("Water Quality");
    }
    push_setting(&mut v, Setting::low_medium_high(XMLSection::Graphics, "waterQuality", "Water Quality", 13, 92));
    proof {
        reveal_strlit("Volumetrics Quality");
    }
    push_setting(&mut v, Setting::low_medium_high_ultra(XMLSection::Graphics, "volumetricsQuality", "Volumetrics Quality", 16, 67, 111));
    proof {
        reveal_strlit("Particle Quality");
    }
    push_setting(&mut v, Setting::low_medium_high_ultra_no_step(XMLSection::Graphics, "particleQuality", "Particle Quality"));
    proof {
        reveal_strlit("Tessellation Quality");
    }
    push_setting(&mut v, Setting::low_medium_high_ultra_no_step(XMLSection::Graphics, "tessellation", "Tessellation Quality"));
    proof {
        reveal_strlit("TAA Quality");
    }
    push_setting(&mut v, Setting::off_medium_high(XMLSection::Graphics, "taa", "TAA Quality", 6, 0));
    proof {
        reveal_strlit("FXAA");
    }
    push_setting(&mut v, Setting::on_off(XMLSection::Graphics, "fxaaEnabled", "FXAA", false));
    proof {
        reveal_strlit("MSAA");
    }
    push_setting(&mut v, Setting::multiplier(XMLSection::Graphics, "msaa", "MSAA", 8));
    proof {
        reveal_strlit("HDR");
    }
    push_setting(&mut v, Setting::on_off(XMLSection::Graphics, "hdr", "HDR", true));
    proof {
        reveal_strlit("HDR Filmic Mode");
    }
    push_setting(&mut v, Setting::on_off(XMLSection::Graphics, "hdrFilmicMode", "HDR Filmic Mode", true));
    proof {
        reveal_strlit("Graphical API");
    }
    push_setting(&mut v, Setting::api_options(XMLSection::AdvancedGraphics, "API", "Graphical API"));
    proof {
        reveal_strlit("Tree Quality");
    }
    push_setting(&mut v, Setting::low_medium_high_ultra(XMLSection::AdvancedGraphics, "treeQuality", "Tree Quality", 0, 0, 0));
    proof {
        reveal_strlit("Decal Quality");
    }
    push_setting(&mut v, Setting::low_medium_high_ultra(XMLSection::AdvancedGraphics, "decalQuality", "Decal Quality", 0, 0, 0));
    proof {
        reveal_strlit("Fur Quality");
    }
    push_setting(&mut v, Setting::off_medium_high(XMLSection::AdvancedGraphics, "furDisplayQuality", "Fur Quality", 0, 0));
    proof {
        reveal_strlit("Motion Blur");
    }
    push_setting(&mut v, Setting::on_off(XMLSection::AdvancedGraphics, "motionBlur", "Motion Blur", true));
    proof {
        reveal_strlit("Water Reflection SSR");
    }
    push_setting(&mut v, Setting::on_off(XMLSection::AdvancedGraphics, "waterReflectionSSR", "Water Reflection SSR", true));
    proof {
        reveal_strlit("Water Refraction Quality");
    }
    push_setting(&mut v, Setting::low_medium_high(XMLSection::AdvancedGraphics, "waterRefractionQuality", "Water Refraction Quality", 2, 5));
    proof {
        reveal_strlit("Water Reflection Quality");
    }
    push_setting(&mut v, Setting::low_medium_high(XMLSection::AdvancedGraphics, "waterReflectionQuality", "Water Reflection Quality", 3, 15));
    proof {
        reveal_strlit("Particle Lighting Quality");
    }
    push_setting(&mut v, Setting::low_medium_high_ultra(XMLSection::AdvancedGraphics, "particleLightingQuality", "Particle Lighting Quality", 18, 0, 0));
    proof {
        reveal_strlit("Soft Shadows");
    }
    push_setting(&mut v, Setting::off_medium_high_ultra(XMLSection::AdvancedGraphics, "shadowSoftShadows", "Soft Shadows", 0, 0, 0));
    proof {
        reveal_strlit("Tree Tessellation");
    }
    push_setting(&mut v, Setting::on_off(XMLSection::AdvancedGraphics, "treeTessellationEnabled", "Tree Tessellation", false));
    proof {
        reveal_strlit("Snow Glints");
    }
    push_setting(&mut v, Setting::on_off(XMLSection::AdvancedGraphics, "snowGlints", "Snow Glints", true));
    proof {
        reveal_strlit("Disable Damage Model");
    }
    push_setting(&mut v, Setting::on_off(XMLSection::AdvancedGraphics, "damageModelsDisabled", "Disable Damage Model", false));
    proof {
        reveal_strlit("Parallax Quality");
    }
    push_setting(&mut v, Setting::low_medium_high_ultra(XMLSection::AdvancedGraphics, "POMQuality", "Parallax Quality", 0, 0, 0));
    proof {
        reveal_strlit("Deep Surface Quality");
    }
    push_setting(&mut v, Setting::low_medium_high(XMLSection::AdvancedGraphics, "deepsurfaceQuality", "Deep Surface Quality", 0, 0));
    proof {
        lemma_wf_selections(v@);
        assert(views_of(v@) =~= catalog());
    }
    v
}

/// The position of the first setting tagged `tag`, or `None` if there is none.
pub fn get_setting_index_by_tag(settings: &[Setting], tag: &str) -> (r: Option<usize>)
    ensures
        match r {
            Some(i) => i < settings@.len() && settings@[i as int].tag@ == tag@ && forall|j: int|
                0 <= j < i ==> settings@[j].tag@ != tag@,
            None => forall|j: int| 0 <= j < settings@.len() ==> settings@[j].tag@ != tag@,
        },
{
    let wanted = tag.to_owned();
    let mut i: usize = 0;
    while i < settings.len()
        invariant
            i <= settings@.len(),
            wanted@ == tag@,
            forall|j: int| 0 <= j < i ==> settings@[j].tag@ != tag@,
        decreases settings@.len() - i,
    {
        if settings[i].tag == wanted {
            return Some(i);
        }
        i = i + 1;
    }
    None
}

} // verus!
