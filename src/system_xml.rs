//! The system settings document: which elements it holds, in which order,
//! written through `xmlwriter`.
use vstd::prelude::*;
use xmlwriter::{Options, XmlWriter};
use crate::settings::{Setting, SettingType, XMLSection, selections_in_range, selection_in_range};
use vstd::string::StrSliceExecFns;
use crate::menu::{decimal, decimal_string};

verus! {

#[verifier::external_type_specification]
#[verifier::external_body]
pub struct ExXmlWriter(XmlWriter);

/// One call made on a writer.
pub enum XmlCall {
    Declaration,
    Start(Seq<char>),
    Attribute(Seq<char>, Seq<char>),
    Text(Seq<char>),
    End,
    Preserve(bool),
}

/// The calls made on a writer since it was created, in order; what it
/// produces is a function of them.
pub uninterp spec fn xml_calls(w: XmlWriter) -> Seq<XmlCall>;

/// Whether a writer quotes attribute values with single quotes.
pub uninterp spec fn xml_single_quote(w: XmlWriter) -> bool;

/// The text of the document that a writer produces after `calls`.
pub uninterp spec fn xml_document(calls: Seq<XmlCall>, single_quote: bool) -> Seq<char>;

/// Where a writer stands: nothing written yet, inside a start tag (where
/// attributes may follow), or elsewhere in the document.
pub enum WriterState {
    Empty,
    Attributes,
    Document,
}

pub open spec fn writer_state(calls: Seq<XmlCall>) -> WriterState
    decreases calls.len(),
{
    if calls.len() == 0 {
        WriterState::Empty
    } else {
        match calls[calls.len() - 1] {
            XmlCall::Start(_) => WriterState::Attributes,
            XmlCall::Attribute(_, _) => WriterState::Attributes,
            XmlCall::Preserve(_) => writer_state(calls.subrange(0, calls.len() - 1)),
            _ => WriterState::Document,
        }
    }
}

/// How many elements are open after `calls`.
pub open spec fn open_elements(calls: Seq<XmlCall>) -> nat
    decreases calls.len(),
{
    if calls.len() == 0 {
        0
    } else {
        let before = open_elements(calls.subrange(0, calls.len() - 1));
        match calls[calls.len() - 1] {
            XmlCall::Start(_) => before + 1,
            XmlCall::End => if before > 0 {
                (before - 1) as nat
            } else {
                0
            },
            _ => before,
        }
    }
}

/// Relies on `XmlWriter::new`: a writer with no calls made, quoting as asked,
/// indenting by four spaces.
#[verifier::external_body]
fn new_writer(single_quote: bool) -> (w: XmlWriter)
    ensures
        xml_calls(w) == Seq::<XmlCall>::empty(),
        xml_single_quote(w) == single_quote,
{
    XmlWriter::new(Options { use_single_quote: single_quote, ..Options::default() })
}

/// Relies on `XmlWriter::write_declaration`, which panics unless it is the
/// first call.
#[verifier::external_body]
fn write_declaration(w: &mut XmlWriter)
    requires
        writer_state(xml_calls(*old(w))) is Empty,
    ensures
        xml_calls(*final(w)) == xml_calls(*old(w)).push(XmlCall::Declaration),
        xml_single_quote(*final(w)) == xml_single_quote(*old(w)),
{
    w.write_declaration()
}

/// Relies on `XmlWriter::start_element`.
#[verifier::external_body]
fn start_element(w: &mut XmlWriter, name: &str)
    ensures
        xml_calls(*final(w)) == xml_calls(*old(w)).push(XmlCall::Start(name@)),
        xml_single_quote(*final(w)) == xml_single_quote(*old(w)),
{
    w.start_element(name)
}

/// Relies on `XmlWriter::write_attribute`, which panics unless it follows a
/// start tag or another attribute.
#[verifier::external_body]
fn write_attribute(w: &mut XmlWriter, name: &str, value: &str)
    requires
        writer_state(xml_calls(*old(w))) is Attributes,
    ensures
        xml_calls(*final(w)) == xml_calls(*old(w)).push(XmlCall::Attribute(name@, value@)),
        xml_single_quote(*final(w)) == xml_single_quote(*old(w)),
{
    w.write_attribute(name, value)
}

/// Relies on `XmlWriter::set_preserve_whitespaces`.
#[verifier::external_body]
fn set_preserve_whitespaces(w: &mut XmlWriter, preserve: bool)
    ensures
        xml_calls(*final(w)) == xml_calls(*old(w)).push(XmlCall::Preserve(preserve)),
        xml_single_quote(*final(w)) == xml_single_quote(*old(w)),
{
    w.set_preserve_whitespaces(preserve)
}

/// Relies on `XmlWriter::write_text`, which panics unless an element is open.
#[verifier::external_body]
fn write_text(w: &mut XmlWriter, text: &str)
    requires
        open_elements(xml_calls(*old(w))) > 0,
    ensures
        xml_calls(*final(w)) == xml_calls(*old(w)).push(XmlCall::Text(text@)),
        xml_single_quote(*final(w)) == xml_single_quote(*old(w)),
{
    w.write_text(text)
}

/// Relies on `XmlWriter::end_element`.
#[verifier::external_body]
fn end_element(w: &mut XmlWriter)
    ensures
        xml_calls(*final(w)) == xml_calls(*old(w)).push(XmlCall::End),
        xml_single_quote(*final(w)) == xml_single_quote(*old(w)),
{
    w.end_element()
}

/// Relies on `XmlWriter::end_document`: it closes what is open and returns
/// the document, which depends on the calls made and the quoting alone.
#[verifier::external_body]
fn end_document(w: XmlWriter) -> (r: String)
    ensures
        r@ == xml_document(xml_calls(w), xml_single_quote(w)),
{
    w.end_document()
}

/// The calls that write `<name value="value"/>`.
pub open spec fn element_calls(name: Seq<char>, value: Seq<char>) -> Seq<XmlCall> {
    seq![XmlCall::Start(name), XmlCall::Attribute("value"@, value), XmlCall::End]
}

/// The calls that write `<name>text</name>`, keeping the text's spacing.
pub open spec fn text_element_calls(name: Seq<char>, text: Seq<char>) -> Seq<XmlCall> {
    seq![
        XmlCall::Start(name),
        XmlCall::Preserve(true),
        XmlCall::Text(text),
        XmlCall::End,
        XmlCall::Preserve(false),
    ]
}

proof fn lemma_push_state(calls: Seq<XmlCall>, c: XmlCall)
    ensures
        calls.push(c).subrange(0, calls.len() as int) == calls,
        writer_state(calls.push(c)) == match c {
            XmlCall::Start(_) => WriterState::Attributes,
            XmlCall::Attribute(_, _) => WriterState::Attributes,
            XmlCall::Preserve(_) => writer_state(calls),
            _ => WriterState::Document,
        },
        open_elements(calls.push(c)) == match c {
            XmlCall::Start(_) => open_elements(calls) + 1,
            XmlCall::End => if open_elements(calls) > 0 {
                (open_elements(calls) - 1) as nat
            } else {
                0
            },
            _ => open_elements(calls),
        },
{
    assert(calls.push(c).subrange(0, calls.len() as int) =~= calls);
}

fn write_element(name: &str, val: &str, xml: &mut XmlWriter)
    ensures
        xml_calls(*final(xml)) == xml_calls(*old(xml)) + element_calls(name@, val@),
        xml_single_quote(*final(xml)) == xml_single_quote(*old(xml)),
{
    start_element(xml, name);
    proof {
        lemma_push_state(xml_calls(*old(xml)), XmlCall::Start(name@));
    }
    write_attribute(xml, "value", val);
    end_element(xml);
    assert(xml_calls(*xml) =~= xml_calls(*old(xml)) + element_calls(name@, val@));
}

fn write_text_element(name: &str, text: &str, xml: &mut XmlWriter)
    ensures
        xml_calls(*final(xml)) == xml_calls(*old(xml)) + text_element_calls(name@, text@),
        xml_single_quote(*final(xml)) == xml_single_quote(*old(xml)),
{
    start_element(xml, name);
    let ghost started = xml_calls(*xml);
    set_preserve_whitespaces(xml, true);
    proof {
        lemma_push_state(xml_calls(*old(xml)), XmlCall::Start(name@));
        lemma_push_state(started, XmlCall::Preserve(true));
    }
    write_text(xml, text);
    end_element(xml);
    set_preserve_whitespaces(xml, false);
    assert(xml_calls(*xml) =~= xml_calls(*old(xml)) + text_element_calls(name@, text@));
}

/// An element with a fixed value: an attribute `value`, or its text.
pub struct FixedElement {
    pub name: &'static str,
    pub value: &'static str,
    pub as_text: bool,
}

pub open spec fn fixed_view(e: FixedElement) -> (Seq<char>, Seq<char>, bool) {
    (e.name@, e.value@, e.as_text)
}

pub open spec fn fixed_views(s: Seq<FixedElement>) -> Seq<(Seq<char>, Seq<char>, bool)> {
    s.map_values(|e: FixedElement| fixed_view(e))
}

/// The calls that write one fixed element.
pub open spec fn fixed_element_calls(e: (Seq<char>, Seq<char>, bool)) -> Seq<XmlCall> {
    if e.2 {
        text_element_calls(e.0, e.1)
    } else {
        element_calls(e.0, e.1)
    }
}

/// The calls that write fixed elements one after another.
pub open spec fn fixed_calls(t: Seq<(Seq<char>, Seq<char>, bool)>) -> Seq<XmlCall>
    decreases t.len(),
{
    if t.len() == 0 {
        Seq::empty()
    } else {
        fixed_calls(t.drop_last()) + fixed_element_calls(t.last())
    }
}

fn fixed(name: &'static str, value: &'static str, as_text: bool) -> (r: FixedElement)
    ensures
        fixed_view(r) == (name@, value@, as_text),
{
    FixedElement { name, value, as_text }
}

fn write_fixed(entries: &Vec<FixedElement>, xml: &mut XmlWriter)
    ensures
        xml_calls(*final(xml)) == xml_calls(*old(xml)) + fixed_calls(fixed_views(entries@)),
        xml_single_quote(*final(xml)) == xml_single_quote(*old(xml)),
{
    let ghost views = fixed_views(entries@);
    let mut i: usize = 0;
    assert(views.take(0) =~= Seq::<(Seq<char>, Seq<char>, bool)>::empty());
    assert(xml_calls(*xml) =~= xml_calls(*old(xml)) + fixed_calls(views.take(0)));
    while i < entries.len()
        invariant
            i <= entries@.len(),
            views == fixed_views(entries@),
            xml_calls(*xml) == xml_calls(*old(xml)) + fixed_calls(views.take(i as int)),
            xml_single_quote(*xml) == xml_single_quote(*old(xml)),
        decreases entries@.len() - i,
    {
        let e = &entries[i];
        let ghost before = xml_calls(*xml);
        if e.as_text {
            write_text_element(e.name, e.value, xml);
        } else {
            write_element(e.name, e.value, xml);
        }
        proof {
            assert(views.take(i + 1).drop_last() =~= views.take(i as int));
            assert(views.take(i + 1).last() == fixed_view(entries@[i as int]));
            assert(xml_calls(*xml) =~= xml_calls(*old(xml)) + fixed_calls(views.take(i + 1)));
        }
        i = i + 1;
    }
    assert(views.take(entries@.len() as int) =~= views);
}

/// The fixed elements at the start of the graphics section.
pub open spec fn default_graphics_spec() -> Seq<(Seq<char>, Seq<char>, bool)> {
    seq![
        ("dlssIndex"@, "0"@, false),
        ("dlssQuality"@, "5"@, false),
        ("graphicsQualityPreset"@, "0.5"@, false),
        ("hdrIntensity"@, "100"@, false),
        ("hdrPeakBrightness"@, "1000"@, false),
        ("gamma"@, "15"@, false),
        ("hdrSettingsMigrated"@, "true"@, false),
    ]
}

fn default_graphics() -> (r: Vec<FixedElement>)
    ensures
        fixed_views(r@) == default_graphics_spec(),
{
    let r = vec![
        fixed("dlssIndex", "0", false),
        fixed("dlssQuality", "5", false),
        fixed("graphicsQualityPreset", "0.5", false),
        fixed("hdrIntensity", "100", false),
        fixed("hdrPeakBrightness", "1000", false),
        fixed("gamma", "15", false),
        fixed("hdrSettingsMigrated", "true", false),
    ];
    assert(fixed_views(r@) =~= default_graphics_spec());
    r
}

/// The fixed elements at the start of the video section.
pub open spec fn default_video_spec() -> Seq<(Seq<char>, Seq<char>, bool)> {
    seq![
        ("adapterIndex"@, "0"@, false),
        ("outputIndex"@, "0"@, false),
        ("resolutionIndexWindowed"@, "0"@, false),
        ("resolutionIndex"@, "1"@, false),
        ("screenWidth"@, "1240"@, false),
        ("screenHeight"@, "720"@, false),
        ("refreshRateIndex"@, "0"@, false),
        ("refreshRateNumerator"@, "60"@, false),
        ("refreshRateDenominator"@, "1"@, false),
        ("windowed"@, "2"@, false),
        ("pauseOnFocusLoss"@, "false"@, false),
        ("constrainMousePointer"@, "false"@, false),
    ]
}

fn default_video() -> (r: Vec<FixedElement>)
    ensures
        fixed_views(r@) == default_video_spec(),
{
    let r = vec![
        fixed("adapterIndex", "0", false),
        fixed("outputIndex", "0", false),
        fixed("resolutionIndexWindowed", "0", false),
        fixed("resolutionIndex", "1", false),
        fixed("screenWidth", "1240", false),
        fixed("screenHeight", "720", false),
        fixed("refreshRateIndex", "0", false),
        fixed("refreshRateNumerator", "60", false),
        fixed("refreshRateDenominator", "1", false),
        fixed("windowed", "2", false),
        fixed("pauseOnFocusLoss", "false", false),
        fixed("constrainMousePointer", "false", false),
    ];
    assert(fixed_views(r@) =~= default_video_spec());
    r
}

/// The fixed elements at the start of the advanced graphics section.
pub open spec fn default_advanced_graphics_spec() -> Seq<(Seq<char>, Seq<char>, bool)> {
    seq![
        ("locked"@, "false"@, false),
        ("asyncComputeEnabled"@, "false"@, false),
        ("transferQueuesEnabled"@, "true"@, false),
        ("motionBlurLimit"@, "16.0"@, false),
        ("waterSimulationQuality"@, "3"@, false),
        ("waterLightingQuality"@, "kSettingLevel_Ultra"@, true),
        ("maxTexUpgradesPerFrame"@, "5"@, false),
        ("shadowGrassShadows"@, "kSettingLevel_High"@, true),
        ("shadowParticleShadows"@, "true"@, false),
        ("shadowLongShadows"@, "true"@, false),
        ("directionalShadowsAlpha"@, "false"@, false),
        ("worldHeightShadowQuality"@, "1.0"@, false),
        ("directionalScreenSpaceShadowQuality"@, "1.0"@, false),
        ("ambientMaskVolumesHighPrecision"@, "true"@, false),
        ("scatteringVolumeQuality"@, "kSettingLevel_High"@, true),
        ("volumetricsRaymarchQuality"@, "kSettingLevel_High"@, true),
        ("volumetricsLightingQuality"@, "kSettingLevel_High"@, true),
        ("volumetricsRaymarchResolutionUnclamped"@, "true"@, false),
        ("terrainShadowQuality"@, "kSettingLevel_Ultra"@, true),
        ("ssaoFullScreenEnabled"@, "false"@, false),
        ("ssaoType"@, "0"@, false),
        ("ssdoSampleCount"@, "4"@, false),
        ("ssdoUseDualRadii"@, "false"@, false),
        ("ssdoResolution"@, "kSettingLevel_Low"@, true),
        ("ssdoTAABlendEnabled"@, "true"@, false),
        ("ssroSampleCount"@, "2"@, false),
        ("probeRelightEveryFrame"@, "false"@, false),
        ("scalingMode"@, "kSettingScale_Mode1o1"@, true),
        ("reflectionMSAA"@, "0"@, false),
        ("lodScale"@, "1.0"@, false),
        ("grassLod"@, "3.0"@, false),
        ("pedLodBias"@, "0"@, false),
        ("vehicleLodBias"@, "0"@, false),
        ("sharpenIntensity"@, "1"@, false),
    ]
}

fn default_advanced_graphics() -> (r: Vec<FixedElement>)
    ensures
        fixed_views(r@) == default_advanced_graphics_spec(),
{
    let r = vec![
        fixed("locked", "false", false),
        fixed("asyncComputeEnabled", "false", false),
        fixed("transferQueuesEnabled", "true", false),
        fixed("motionBlurLimit", "16.0", false),
        fixed("waterSimulationQuality", "3", false),
        fixed("waterLightingQuality", "kSettingLevel_Ultra", true),
        fixed("maxTexUpgradesPerFrame", "5", false),
        fixed("shadowGrassShadows", "kSettingLevel_High", true),
        fixed("shadowParticleShadows", "true", false),
        fixed("shadowLongShadows", "true", false),
        fixed("directionalShadowsAlpha", "false", false),
        fixed("worldHeightShadowQuality", "1.0", false),
        fixed("directionalScreenSpaceShadowQuality", "1.0", false),
        fixed("ambientMaskVolumesHighPrecision", "true", false),
        fixed("scatteringVolumeQuality", "kSettingLevel_High", true),
        fixed("volumetricsRaymarchQuality", "kSettingLevel_High", true),
        fixed("volumetricsLightingQuality", "kSettingLevel_High", true),
        fixed("volumetricsRaymarchResolutionUnclamped", "true", false),
        fixed("terrainShadowQuality", "kSettingLevel_Ultra", true),
        fixed("ssaoFullScreenEnabled", "false", false),
        fixed("ssaoType", "0", false),
        fixed("ssdoSampleCount", "4", false),
        fixed("ssdoUseDualRadii", "false", false),
        fixed("ssdoResolution", "kSettingLevel_Low", true),
        fixed("ssdoTAABlendEnabled", "true", false),
        fixed("ssroSampleCount", "2", false),
        fixed("probeRelightEveryFrame", "false", false),
        fixed("scalingMode", "kSettingScale_Mode1o1", true),
        fixed("reflectionMSAA", "0", false),
        fixed("lodScale", "1.0", false),
        fixed("grassLod", "3.0", false),
        fixed("pedLodBias", "0", false),
        fixed("vehicleLodBias", "0", false),
        fixed("sharpenIntensity", "1", false),
    ];
    assert(fixed_views(r@) =~= default_advanced_graphics_spec());
    r
}

/// The calls that write one setting's element: a level as the text of its
/// selected choice's configuration value, any other kind as a `value`
/// attribute.
pub open spec fn option_calls(s: Setting) -> Seq<XmlCall> {
    match s.setting_type {
        SettingType::Level(i, opts, _) => text_element_calls(s.tag@, opts@[i as int].config_name@),
        SettingType::OnOff(on) => element_calls(
            s.tag@,
            if on {
                "true"@
            } else {
                "false"@
            },
        ).push(XmlCall::Preserve(false)),
        SettingType::Multiplier(v, _) => element_calls(s.tag@, decimal(v as nat)).push(
            XmlCall::Preserve(false),
        ),
        SettingType::OnHalfOff(v) => element_calls(s.tag@, decimal(v as nat)).push(
            XmlCall::Preserve(false),
        ),
        SettingType::Slider(v, _, _) => element_calls(s.tag@, decimal(v as nat)).push(
            XmlCall::Preserve(false),
        ),
    }
}

/// The calls that write the settings of `section`, in their order in `s`.
pub open spec fn section_calls(s: Seq<Setting>, section: XMLSection) -> Seq<XmlCall>
    decreases s.len(),
{
    if s.len() == 0 {
        Seq::empty()
    } else {
        section_calls(s.drop_last(), section) + if s.last().section == section {
            option_calls(s.last())
        } else {
            Seq::empty()
        }
    }
}

fn write_option(setting: &Setting, xml: &mut XmlWriter)
    requires
        selection_in_range(setting.setting_type),
    ensures
        xml_calls(*final(xml)) == xml_calls(*old(xml)) + option_calls(*setting),
        xml_single_quote(*final(xml)) == xml_single_quote(*old(xml)),
{
    match &setting.setting_type {
        SettingType::Level(index, selectables, _) => {
            write_text_element(setting.tag.as_str(), selectables[*index].config_name.as_str(), xml);
        },
        _ => {
            let value = match &setting.setting_type {
                SettingType::OnOff(on) => if *on {
                    "true".to_owned()
                } else {
                    "false".to_owned()
                },
                SettingType::Multiplier(v, _) => decimal_string(*v),
                SettingType::OnHalfOff(v) => decimal_string(*v),
                SettingType::Slider(v, _, _) => decimal_string(*v),
                SettingType::Level(..) => "".to_owned(),
            };
            write_element(setting.tag.as_str(), value.as_str(), xml);
            set_preserve_whitespaces(xml, false);
            assert(xml_calls(*xml) =~= xml_calls(*old(xml)) + option_calls(*setting));
        },
    }
}

fn write_options_section(section: XMLSection, settings: &[Setting], xml: &mut XmlWriter)
    requires
        selections_in_range(settings@),
    ensures
        xml_calls(*final(xml)) == xml_calls(*old(xml)) + section_calls(settings@, section),
        xml_single_quote(*final(xml)) == xml_single_quote(*old(xml)),
{
    let mut i: usize = 0;
    assert(settings@.take(0) =~= Seq::<Setting>::empty());
    assert(xml_calls(*xml) =~= xml_calls(*old(xml)) + section_calls(settings@.take(0), section));
    while i < settings.len()
        invariant
            i <= settings@.len(),
            selections_in_range(settings@),
            xml_calls(*xml) == xml_calls(*old(xml)) + section_calls(settings@.take(i as int), section),
            xml_single_quote(*xml) == xml_single_quote(*old(xml)),
        decreases settings@.len() - i,
    {
        let setting = &settings[i];
        proof {
            assert(settings@.take(i + 1).drop_last() =~= settings@.take(i as int));
            assert(settings@.take(i + 1).last() == settings@[i as int]);
        }
        if setting.section == section {
            assert(selection_in_range(settings@[i as int].setting_type));
            write_option(setting, xml);
            assert(xml_calls(*xml) =~= xml_calls(*old(xml)) + section_calls(
                settings@.take(i + 1),
                section,
            ));
        } else {
            assert(xml_calls(*xml) =~= xml_calls(*old(xml)) + section_calls(
                settings@.take(i + 1),
                section,
            ));
        }
        i = i + 1;
    }
    assert(settings@.take(settings@.len() as int) =~= settings@);
}

/// The calls before the graphics section's own elements.
pub open spec fn document_head() -> Seq<XmlCall> {
    seq![
        XmlCall::Declaration,
        XmlCall::Start("rage__fwuiSystemSettingsCollection"@),
    ] + element_calls("version"@, "37"@) + text_element_calls(
        "configSource"@,
        "kSettingsConfig_Auto"@,
    )
}

/// The calls that write the settings document for `s`, naming the video card
/// `card`.
pub open spec fn document_calls(s: Seq<Setting>, card: Seq<char>) -> Seq<XmlCall> {
    document_head() + seq![XmlCall::Start("graphics"@)] + fixed_calls(default_graphics_spec())
        + section_calls(s, XMLSection::Graphics) + seq![XmlCall::End, XmlCall::Start("video"@)]
        + fixed_calls(default_video_spec()) + section_calls(s, XMLSection::Video) + seq![
        XmlCall::End,
        XmlCall::Start("advancedGraphics"@),
    ] + fixed_calls(default_advanced_graphics_spec()) + section_calls(
        s,
        XMLSection::AdvancedGraphics,
    ) + seq![XmlCall::End] + text_element_calls("videoCardDescription"@, card)
}

/// The video card text written where none is known.
pub open spec fn card_placeholder() -> Seq<char> {
    "VIDEO_CARD_NAME"@
}

/// The settings document for `settings`, with double-quoted attributes. The
/// video card description is `card_name`, or a placeholder to fill in by hand.
pub fn build_system_xml(settings: &[Setting], card_name: Option<&str>) -> (r: String)
    requires
        selections_in_range(settings@),
    ensures
        r@ == xml_document(
            document_calls(
                settings@,
                match card_name {
                    Some(c) => c@,
                    None => card_placeholder(),
                },
            ),
            false,
        ),
{
    let mut xml = new_writer(false);
    write_declaration(&mut xml);
    start_element(&mut xml, "rage__fwuiSystemSettingsCollection");
    write_element("version", "37", &mut xml);
    write_text_element("configSource", "kSettingsConfig_Auto", &mut xml);
    assert(xml_calls(xml) =~= document_head());

    start_element(&mut xml, "graphics");
    let graphics = default_graphics();
    write_fixed(&graphics, &mut xml);
    write_options_section(XMLSection::Graphics, settings, &mut xml);
    end_element(&mut xml);

    start_element(&mut xml, "video");
    let video = default_video();
    write_fixed(&video, &mut xml);
    write_options_section(XMLSection::Video, settings, &mut xml);
    end_element(&mut xml);

    start_element(&mut xml, "advancedGraphics");
    let advanced = default_advanced_graphics();
    write_fixed(&advanced, &mut xml);
    write_options_section(XMLSection::AdvancedGraphics, settings, &mut xml);
    end_element(&mut xml);

    let card = match card_name {
        Some(c) => c,
        None => "VIDEO_CARD_NAME",
    };
    write_text_element("videoCardDescription", card, &mut xml);
    let ghost card_view = match card_name {
        Some(c) => c@,
        None => card_placeholder(),
    };
    assert(xml_calls(xml) =~= document_calls(settings@, card_view));
    end_document(xml)
}


/// `tag` occurs in `s` at position `i`.
pub open spec fn occurs_at(s: Seq<char>, tag: Seq<char>, i: int) -> bool {
    0 <= i && i + tag.len() <= s.len() && s.subrange(i, i + tag.len()) == tag
}

/// The last position at or before `i` where `tag` occurs in `s`, or -1.
pub open spec fn last_occurrence(s: Seq<char>, tag: Seq<char>, i: int) -> int
    decreases i + 1,
{
    if i < 0 {
        -1
    } else if occurs_at(s, tag, i) {
        i
    } else {
        last_occurrence(s, tag, i - 1)
    }
}

/// The first position at or after `j` where `s` holds `c`, or -1.
pub open spec fn first_char_from(s: Seq<char>, c: char, j: int) -> int
    decreases s.len() - j,
{
    if j < 0 || j >= s.len() {
        -1
    } else if s[j] == c {
        j
    } else {
        first_char_from(s, c, j + 1)
    }
}

/// The start tag of the video card description.
pub open spec fn card_tag() -> Seq<char> {
    "<videoCardDescription>"@
}

/// The video card description in an existing settings document: the text
/// after the last description start tag, up to the next `<`; `None` if there
/// is no such tag or no `<` after it.
pub open spec fn card_name_in(s: Seq<char>) -> Option<Seq<char>> {
    let i = last_occurrence(s, card_tag(), s.len() - card_tag().len());
    if i < 0 {
        None
    } else {
        let start = i + card_tag().len();
        let j = first_char_from(s, '<', start);
        if j < 0 {
            None
        } else {
            Some(s.subrange(start, j))
        }
    }
}

fn occurs_in(content: &str, n: usize, tag: &str, m: usize, i: usize) -> (r: bool)
    requires
        n == content@.len(),
        m == tag@.len(),
        i + m <= n,
    ensures
        r == occurs_at(content@, tag@, i as int),
{
    let mut k: usize = 0;
    while k < m
        invariant
            n == content@.len(),
            m == tag@.len(),
            i + m <= n,
            k <= m,
            forall|x: int| 0 <= x < k ==> content@[i + x] == tag@[x],
        decreases m - k,
    {
        if content.get_char(i + k) != tag.get_char(k) {
            assert(content@.subrange(i as int, i + m)[k as int] != tag@[k as int]);
            return false;
        }
        k = k + 1;
    }
    assert(content@.subrange(i as int, i + m) =~= tag@);
    true
}

/// The video card description held in the text of an existing settings
/// document.
pub fn video_card_name(content: &str) -> (r: Option<String>)
    ensures
        match r {
            Some(name) => card_name_in(content@) == Some(name@),
            None => card_name_in(content@) is None,
        },
{
    let tag = "<videoCardDescription>";
    let n = content.unicode_len();
    let m = tag.unicode_len();
    if n < m {
        assert(last_occurrence(content@, card_tag(), n - m) == -1);
        return None;
    }
    let mut i: usize = n - m;
    loop
        invariant
            n == content@.len(),
            m == tag@.len(),
            tag@ == card_tag(),
            m <= n,
            i <= n - m,
            last_occurrence(content@, card_tag(), (n - m) as int) == last_occurrence(
                content@,
                card_tag(),
                i as int,
            ),
        ensures
            occurs_at(content@, card_tag(), i as int),
        decreases i,
    {
        if occurs_in(content, n, tag, m, i) {
            break;
        }
        if i == 0 {
            assert(last_occurrence(content@, card_tag(), -1) == -1);
            return None;
        }
        i = i - 1;
    }
    let start = i + m;
    assert(last_occurrence(content@, card_tag(), (n - m) as int) == i);
    let mut j: usize = start;
    while j < n
        invariant
            n == content@.len(),
            start <= j <= n,
            m == card_tag().len(),
            m <= n,
            start == i + m,
            last_occurrence(content@, card_tag(), (n - m) as int) == i,
            first_char_from(content@, '<', start as int) == first_char_from(content@, '<', j as int),
        decreases n - j,
    {
        if content.get_char(j) == '<' {
            assert(first_char_from(content@, '<', j as int) == j);
            let name = content.substring_char(start, j);
            return Some(name.to_owned());
        }
        j = j + 1;
    }
    assert(first_char_from(content@, '<', n as int) == -1);
    None
}

} // verus!
