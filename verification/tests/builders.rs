use geos::{
    BufferParamsBuilder, BufferParamsSetting, CapStyle, JoinStyle, MakeValidMethod,
    MakeValidParamsBuilder, MakeValidSetting,
};

#[test]
fn default_buffer_builder_sets_nothing() {
    assert!(BufferParamsBuilder::default().build_plan().is_empty());
}

#[test]
fn buffer_builder_plan_is_ordered() {
    let b = BufferParamsBuilder::default()
        .single_sided(true)
        .quadrant_segments(8)
        .mitre_limit_bits(2.5f64.to_bits())
        .join_style(JoinStyle::Mitre)
        .end_cap_style(CapStyle::Flat)
        .end_cap_style(CapStyle::Square);
    assert_eq!(
        b.build_plan(),
        vec![
            BufferParamsSetting::EndCapStyle(CapStyle::Square),
            BufferParamsSetting::JoinStyle(JoinStyle::Mitre),
            BufferParamsSetting::MitreLimitBits(2.5f64.to_bits()),
            BufferParamsSetting::QuadrantSegments(8),
            BufferParamsSetting::SingleSided(true),
        ]
    );
}

#[test]
fn buffer_builder_plan_skips_unset_options() {
    let b = BufferParamsBuilder::default().quadrant_segments(-3);
    assert_eq!(b.build_plan(), vec![BufferParamsSetting::QuadrantSegments(-3)]);
}

#[test]
fn make_valid_builder_plan() {
    assert!(MakeValidParamsBuilder::default().build_plan().is_empty());
    let b = MakeValidParamsBuilder::default()
        .keep_collapsed(true)
        .method(MakeValidMethod::Structure);
    assert_eq!(
        b.build_plan(),
        vec![
            MakeValidSetting::Method(MakeValidMethod::Structure),
            MakeValidSetting::KeepCollapsed(true),
        ]
    );
    let k = MakeValidParamsBuilder::default().keep_collapsed(false);
    assert_eq!(k.build_plan(), vec![MakeValidSetting::KeepCollapsed(false)]);
}
