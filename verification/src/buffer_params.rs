use crate::enums::{CapStyle, JoinStyle};
use vstd::prelude::*;

verus! {

/// One setting applied to a GEOS buffer-parameters object.
///
/// The mitre limit is carried as the bit pattern of its `f64` value
/// (`f64::to_bits`), which the builder hands on unchanged.
#[derive(Debug, Clone, Copy, PartialEq, Eq, Structural)]
pub enum BufferParamsSetting {
    EndCapStyle(CapStyle),
    JoinStyle(JoinStyle),
    MitreLimitBits(u64),
    QuadrantSegments(i32),
    SingleSided(bool),
}

/// Build options for buffer parameters: each option left unset keeps the
/// GEOS default.
#[derive(Debug, Clone, Copy, PartialEq, Eq, Structural)]
pub struct BufferParamsBuilder {
    pub end_cap_style: Option<CapStyle>,
    pub join_style: Option<JoinStyle>,
    pub mitre_limit_bits: Option<u64>,
    pub quadrant_segments: Option<i32>,
    pub single_sided: Option<bool>,
}

/// A sequence of one setting for a present option, of none for an absent one.
pub open spec fn optional_setting<T>(o: Option<T>, f: spec_fn(T) -> BufferParamsSetting) -> Seq<
    BufferParamsSetting,
> {
    match o {
        Some(v) => seq![f(v)],
        None => Seq::empty(),
    }
}

impl BufferParamsBuilder {
    /// The settings that `build` applies, in the order it applies them:
    /// end cap style, join style, mitre limit, quadrant segments, single side.
    pub open spec fn plan(self) -> Seq<BufferParamsSetting> {
        optional_setting(self.end_cap_style, |v| BufferParamsSetting::EndCapStyle(v))
            + optional_setting(self.join_style, |v| BufferParamsSetting::JoinStyle(v))
            + optional_setting(self.mitre_limit_bits, |v| BufferParamsSetting::MitreLimitBits(v))
            + optional_setting(self.quadrant_segments, |v| BufferParamsSetting::QuadrantSegments(v))
            + optional_setting(self.single_sided, |v| BufferParamsSetting::SingleSided(v))
    }

    pub fn end_cap_style(self, style: CapStyle) -> (res: Self)
        ensures
            res == (BufferParamsBuilder { end_cap_style: Some(style), ..self }),
    {
        BufferParamsBuilder { end_cap_style: Some(style), ..self }
    }

    pub fn join_style(self, style: JoinStyle) -> (res: Self)
        ensures
            res == (BufferParamsBuilder { join_style: Some(style), ..self }),
    {
        BufferParamsBuilder { join_style: Some(style), ..self }
    }

    /// Sets the mitre limit, given as the bit pattern of its `f64` value.
    pub fn mitre_limit_bits(self, limit_bits: u64) -> (res: Self)
        ensures
            res == (BufferParamsBuilder { mitre_limit_bits: Some(limit_bits), ..self }),
    {
        BufferParamsBuilder { mitre_limit_bits: Some(limit_bits), ..self }
    }

    pub fn quadrant_segments(self, quadsegs: i32) -> (res: Self)
        ensures
            res == (BufferParamsBuilder { quadrant_segments: Some(quadsegs), ..self }),
    {
        BufferParamsBuilder { quadrant_segments: Some(quadsegs), ..self }
    }

    pub fn single_sided(self, is_single_sided: bool) -> (res: Self)
        ensures
            res == (BufferParamsBuilder { single_sided: Some(is_single_sided), ..self }),
    {
        BufferParamsBuilder { single_sided: Some(is_single_sided), ..self }
    }

    /// The settings to apply to a fresh GEOS buffer-parameters object, in
    /// order; building stops at the first one that GEOS refuses.
    pub fn build_plan(&self) -> (res: Vec<BufferParamsSetting>)
        ensures
            res@ == self.plan(),
    {
        let mut res: Vec<BufferParamsSetting> = Vec::new();
        if let Some(style) = self.end_cap_style {
            res.push(BufferParamsSetting::EndCapStyle(style));
        }
        if let Some(style) = self.join_style {
            res.push(BufferParamsSetting::JoinStyle(style));
        }
        if let Some(limit) = self.mitre_limit_bits {
            res.push(BufferParamsSetting::MitreLimitBits(limit));
        }
        if let Some(quad_segs) = self.quadrant_segments {
            res.push(BufferParamsSetting::QuadrantSegments(quad_segs));
        }
        if let Some(is_single_sided) = self.single_sided {
            res.push(BufferParamsSetting::SingleSided(is_single_sided));
        }
        assert(res@ =~= self.plan());
        res
    }
}

/// The position of a setting's kind in the order in which `build` applies
/// settings.
pub open spec fn setting_rank(s: BufferParamsSetting) -> int {
    match s {
        BufferParamsSetting::EndCapStyle(_) => 0,
        BufferParamsSetting::JoinStyle(_) => 1,
        BufferParamsSetting::MitreLimitBits(_) => 2,
        BufferParamsSetting::QuadrantSegments(_) => 3,
        BufferParamsSetting::SingleSided(_) => 4,
    }
}

/// `build` applies at most one setting of each kind, always in the same
/// order (end cap style, join style, mitre limit, quadrant segments, single
/// side); it applies an end cap style exactly when one was set; a value that
/// a setter stored is applied; and the default builder applies none.
pub proof fn build_plan_is_ordered(b: BufferParamsBuilder, style: CapStyle, join: JoinStyle, quadsegs: i32)
    ensures
        b.plan().len() <= 5,
        forall|i: int, j: int|
            0 <= i < j < b.plan().len() ==> setting_rank(b.plan()[i]) < setting_rank(b.plan()[j]),
        (b.end_cap_style is Some) == b.plan().contains(BufferParamsSetting::EndCapStyle(b.end_cap_style->0)),
        (BufferParamsBuilder { end_cap_style: Some(style), ..b }).plan()[0]
            == BufferParamsSetting::EndCapStyle(style),
        (BufferParamsBuilder { join_style: Some(join), ..b }).plan().contains(
            BufferParamsSetting::JoinStyle(join),
        ),
        (BufferParamsBuilder { quadrant_segments: Some(quadsegs), ..b }).plan().contains(
            BufferParamsSetting::QuadrantSegments(quadsegs),
        ),
        BufferParamsBuilder::default_spec().plan().len() == 0,
{
    let p = b.plan();
    let s0 = optional_setting(b.end_cap_style, |v| BufferParamsSetting::EndCapStyle(v));
    let s1 = optional_setting(b.join_style, |v| BufferParamsSetting::JoinStyle(v));
    let s2 = optional_setting(b.mitre_limit_bits, |v| BufferParamsSetting::MitreLimitBits(v));
    let s3 = optional_setting(b.quadrant_segments, |v| BufferParamsSetting::QuadrantSegments(v));
    let s4 = optional_setting(b.single_sided, |v| BufferParamsSetting::SingleSided(v));
    assert forall|i: int, j: int|
        0 <= i < j < p.len() implies setting_rank(p[i]) < setting_rank(p[j]) by {
        assert(p == s0 + s1 + s2 + s3 + s4);
    }
    if b.end_cap_style is Some {
        assert(p[0] == BufferParamsSetting::EndCapStyle(b.end_cap_style->0));
    } else {
        assert forall|i: int| 0 <= i < p.len() implies setting_rank(p[i]) > 0 by {
            assert(p == s0 + s1 + s2 + s3 + s4);
        }
        if p.contains(BufferParamsSetting::EndCapStyle(b.end_cap_style->0)) {
            let k = choose|k: int| 0 <= k < p.len() && p[k] == BufferParamsSetting::EndCapStyle(b.end_cap_style->0);
            assert(setting_rank(p[k]) > 0);
        }
    }
    let pj = (BufferParamsBuilder { join_style: Some(join), ..b }).plan();
    let kj = if b.end_cap_style is Some { 1int } else { 0int };
    assert(pj[kj] == BufferParamsSetting::JoinStyle(join));
    let pq = (BufferParamsBuilder { quadrant_segments: Some(quadsegs), ..b }).plan();
    let kq = (if b.end_cap_style is Some { 1int } else { 0int }) + (if b.join_style is Some { 1int } else { 0int }) + (if b.mitre_limit_bits is Some { 1int } else { 0int });
    assert(pq[kq] == BufferParamsSetting::QuadrantSegments(quadsegs));
}

impl BufferParamsBuilder {
    /// The builder with no option set.
    pub open spec fn default_spec() -> Self {
        BufferParamsBuilder {
            end_cap_style: None,
            join_style: None,
            mitre_limit_bits: None,
            quadrant_segments: None,
            single_sided: None,
        }
    }
}

impl Default for BufferParamsBuilder {
    fn default() -> (res: Self)
        ensures
            res == Self::default_spec(),
    {
        BufferParamsBuilder {
            end_cap_style: None,
            join_style: None,
            mitre_limit_bits: None,
            quadrant_segments: None,
            single_sided: None,
        }
    }
}

/// A sequence of at most one setting holds exactly the setting made from
/// the option's value, when there is one.
proof fn optional_setting_contains<T>(o: Option<T>, f: spec_fn(T) -> BufferParamsSetting, x: BufferParamsSetting)
    ensures
        optional_setting(o, f).contains(x) <==> (o is Some && x == f(o->0)),
{
    if o is Some {
        assert(optional_setting(o, f)[0] == f(o->0));
    }
}

/// A setting occurs in a concatenation exactly when it occurs in one part.
proof fn concat_contains(a: Seq<BufferParamsSetting>, b: Seq<BufferParamsSetting>, x: BufferParamsSetting)
    ensures
        (a + b).contains(x) <==> a.contains(x) || b.contains(x),
{
    if (a + b).contains(x) {
        let k = choose|k: int| 0 <= k < (a + b).len() && (a + b)[k] == x;
        if k < a.len() {
            assert(a[k] == x);
        } else {
            assert(b[k - a.len()] == x);
        }
    }
    if a.contains(x) {
        let k = choose|k: int| 0 <= k < a.len() && a[k] == x;
        assert((a + b)[k] == x);
    }
    if b.contains(x) {
        let k = choose|k: int| 0 <= k < b.len() && b[k] == x;
        assert((a + b)[a.len() + k] == x);
    }
}

/// `build` applies every option that was set with the value it was set to,
/// and nothing else: each setting it applies carries the value of its
/// option, and each option set is applied.
pub proof fn build_plan_applies_the_values_set(b: BufferParamsBuilder, x: BufferParamsSetting)
    ensures
        b.plan().contains(x) <==> match x {
            BufferParamsSetting::EndCapStyle(v) => b.end_cap_style == Some(v),
            BufferParamsSetting::JoinStyle(v) => b.join_style == Some(v),
            BufferParamsSetting::MitreLimitBits(v) => b.mitre_limit_bits == Some(v),
            BufferParamsSetting::QuadrantSegments(v) => b.quadrant_segments == Some(v),
            BufferParamsSetting::SingleSided(v) => b.single_sided == Some(v),
        },
{
    let f0 = |v| BufferParamsSetting::EndCapStyle(v);
    let f1 = |v| BufferParamsSetting::JoinStyle(v);
    let f2 = |v| BufferParamsSetting::MitreLimitBits(v);
    let f3 = |v| BufferParamsSetting::QuadrantSegments(v);
    let f4 = |v| BufferParamsSetting::SingleSided(v);
    let s0 = optional_setting(b.end_cap_style, f0);
    let s1 = optional_setting(b.join_style, f1);
    let s2 = optional_setting(b.mitre_limit_bits, f2);
    let s3 = optional_setting(b.quadrant_segments, f3);
    let s4 = optional_setting(b.single_sided, f4);
    assert(b.plan() == s0 + s1 + s2 + s3 + s4);
    concat_contains(s0 + s1 + s2 + s3, s4, x);
    concat_contains(s0 + s1 + s2, s3, x);
    concat_contains(s0 + s1, s2, x);
    concat_contains(s0, s1, x);
    optional_setting_contains(b.end_cap_style, f0, x);
    optional_setting_contains(b.join_style, f1, x);
    optional_setting_contains(b.mitre_limit_bits, f2, x);
    optional_setting_contains(b.quadrant_segments, f3, x);
    optional_setting_contains(b.single_sided, f4, x);
}

} // verus!
