use crate::enums::MakeValidMethod;
use vstd::prelude::*;

verus! {

/// One setting applied to a GEOS make-valid-parameters object.
#[derive(Debug, Clone, Copy, PartialEq, Eq, Structural)]
pub enum MakeValidSetting {
    Method(MakeValidMethod),
    KeepCollapsed(bool),
}

/// Build options for make-valid parameters: each option left unset keeps
/// the GEOS default.
#[derive(Debug, Clone, Copy, PartialEq, Eq, Structural)]
pub struct MakeValidParamsBuilder {
    pub method: Option<MakeValidMethod>,
    pub keep_collapsed: Option<bool>,
}

impl MakeValidParamsBuilder {
    /// The builder with no option set.
    pub open spec fn default_spec() -> Self {
        MakeValidParamsBuilder { method: None, keep_collapsed: None }
    }

    /// The settings that `build` applies, in the order it applies them:
    /// the method, then whether collapsed geometries are kept.
    pub open spec fn plan(self) -> Seq<MakeValidSetting> {
        (match self.method {
            Some(m) => seq![MakeValidSetting::Method(m)],
            None => Seq::empty(),
        }) + (match self.keep_collapsed {
            Some(k) => seq![MakeValidSetting::KeepCollapsed(k)],
            None => Seq::empty(),
        })
    }

    pub fn method(self, method: MakeValidMethod) -> (res: Self)
        ensures
            res == (MakeValidParamsBuilder { method: Some(method), ..self }),
    {
        MakeValidParamsBuilder { method: Some(method), ..self }
    }

    pub fn keep_collapsed(self, keep_collapsed: bool) -> (res: Self)
        ensures
            res == (MakeValidParamsBuilder { keep_collapsed: Some(keep_collapsed), ..self }),
    {
        MakeValidParamsBuilder { keep_collapsed: Some(keep_collapsed), ..self }
    }

    /// The settings to apply to a fresh GEOS make-valid-parameters object,
    /// in order; building stops at the first one that GEOS refuses.
    pub fn build_plan(&self) -> (res: Vec<MakeValidSetting>)
        ensures
            res@ == self.plan(),
    {
        let mut res: Vec<MakeValidSetting> = Vec::new();
        if let Some(method) = self.method {
            res.push(MakeValidSetting::Method(method));
        }
        if let Some(keep_collapsed) = self.keep_collapsed {
            res.push(MakeValidSetting::KeepCollapsed(keep_collapsed));
        }
        assert(res@ =~= self.plan());
        res
    }
}

impl Default for MakeValidParamsBuilder {
    fn default() -> (res: Self)
        ensures
            res == Self::default_spec(),
    {
        MakeValidParamsBuilder { method: None, keep_collapsed: None }
    }
}

/// `build` applies the method before the collapse setting, each at most
/// once and exactly when it was set, with the value set; the default
/// builder applies none.
pub proof fn make_valid_plan_is_ordered(b: MakeValidParamsBuilder)
    ensures
        b.plan().len() == (if b.method is Some { 1int } else { 0 }) + (if b.keep_collapsed is Some {
            1int
        } else {
            0
        }),
        b.method is Some ==> b.plan()[0] == MakeValidSetting::Method(b.method->0),
        b.keep_collapsed is Some ==> b.plan().last() == MakeValidSetting::KeepCollapsed(
            b.keep_collapsed->0,
        ),
        MakeValidParamsBuilder::default_spec().plan().len() == 0,
{
}

} // verus!
