//! YAML vehicle profiles: each module's feature settings are checked against the module's
//! as-built catalog before anything is written.

use vstd::prelude::*;
use crate::asbuilt::types::AsBuiltBlock;
use crate::cli::args::ModuleArg;
use crate::cli::asbuilt::{
    first_block_with, first_feature_at, has_feature, is_catalog_of, known_blocks, locate_feature,
    module_arg_named, parse_module_arg, parse_value, parsed_value,
};
use crate::text::{dec_chars, push_decimal};

verus! {

/// Vehicle identification fields of a profile.
#[derive(Clone, Debug)]
pub struct VehicleInfo {
    /// Expected VIN, guarding against applying a profile to the wrong vehicle.
    pub vin: Option<String>,
    /// Human-readable model description (informational only).
    pub model: Option<String>,
}

/// One feature setting of a profile, its value already rendered as text.
#[derive(Clone, Debug)]
pub struct ProfileSetting {
    pub feature: String,
    pub value: String,
}

/// The settings of one module of a profile.
#[derive(Clone, Debug)]
pub struct ProfileModule {
    pub module: String,
    pub settings: Vec<ProfileSetting>,
}

/// The verdict on one setting, given the module's catalog: the `ok` line, or the error.
pub open spec fn setting_verdict(
    blocks: Seq<AsBuiltBlock>,
    module: Seq<char>,
    feature: Seq<char>,
    value: Seq<char>,
    r: Result<String, String>,
) -> bool {
    if forall|i: int| 0 <= i < blocks.len() ==> !has_feature(#[trigger] blocks[i], feature) {
        r matches Err(e) && e@ == "unknown feature: "@ + module + "."@ + feature
    } else {
        exists|i: int, j: int|
            #![trigger first_block_with(blocks, feature, i), first_feature_at(blocks[i], feature, j)]
            first_block_with(blocks, feature, i) && first_feature_at(blocks[i], feature, j) && match parsed_value(
                blocks[i].features@[j].feature_type,
                value,
            ) {
                Ok(_) => r matches Ok(l) && l@ == "  ok  "@ + module + "."@ + feature + " = "@ + value,
                Err(m) => r matches Err(e) && e@ == module + "."@ + feature + " = "@ + value + ": "@ + m,
            }
    }
}

/// Checks one setting of `module` against the module's catalog `blocks`.
pub fn check_setting(blocks: &Vec<AsBuiltBlock>, module: &str, feature: &str, value: &str) -> (r:
    Result<String, String>)
    ensures
        setting_verdict(blocks@, module@, feature@, value@, r),
{
    match locate_feature(blocks, feature) {
        None => {
            let mut e = String::from_str("unknown feature: ");
            e.append(module);
            e.append(".");
            e.append(feature);
            proof {
                assert(e@ =~= "unknown feature: "@ + module@ + "."@ + feature@);
            }
            Err(e)
        },
        Some((i, j)) => {
            let mut head = String::from_str(module);
            head.append(".");
            head.append(feature);
            head.append(" = ");
            head.append(value);
            let ghost h = head@;
            proof {
                assert(h =~= module@ + "."@ + feature@ + " = "@ + value@);
            }
            let r = match parse_value(&blocks[i].features[j], value) {
                Ok(_) => {
                    let mut l = String::from_str("  ok  ");
                    l.append(head.as_str());
                    proof {
                        assert(l@ =~= "  ok  "@ + module@ + "."@ + feature@ + " = "@ + value@);
                    }
                    Ok(l)
                },
                Err(m) => {
                    head.append(": ");
                    head.append(m.as_str());
                    proof {
                        assert(head@ =~= module@ + "."@ + feature@ + " = "@ + value@ + ": "@ + m@);
                    }
                    Err(head)
                },
            };
            proof {
                assert(first_block_with(blocks@, feature@, i as int) && first_feature_at(
                    blocks@[i as int],
                    feature@,
                    j as int,
                ));
                assert(has_feature(blocks@[i as int], feature@));
            }
            r
        },
    }
}

/// The outcome of checking one module of a profile.
#[derive(Debug)]
pub enum ModuleCheck {
    /// The module name is not known; the message says so.
    UnknownModule(String),
    /// The verdict on each setting, in order.
    Checked(Vec<Result<String, String>>),
}

/// `c` is the outcome of checking module entry `m`.
pub open spec fn module_verdict(m: ProfileModule, c: ModuleCheck) -> bool {
    match module_arg_named(m.module@) {
        None => c matches ModuleCheck::UnknownModule(e) && e@ == "unknown module: "@ + m.module@,
        Some(arg) => c matches ModuleCheck::Checked(v) && v@.len() == m.settings@.len() && exists|
            blocks: Seq<AsBuiltBlock>,
        |
            #[trigger] is_catalog_of(arg, blocks) && forall|j: int|
                0 <= j < v@.len() ==> setting_verdict(
                    blocks,
                    m.module@,
                    m.settings@[j].feature@,
                    m.settings@[j].value@,
                    #[trigger] v@[j],
                ),
    }
}

/// Checks every module of a profile, in order.
pub fn validate_profile(modules: &Vec<ProfileModule>) -> (r: Vec<ModuleCheck>)
    ensures
        r@.len() == modules@.len(),
        forall|i: int| 0 <= i < r@.len() ==> module_verdict(modules@[i], #[trigger] r@[i]),
{
    let mut checks: Vec<ModuleCheck> = Vec::new();
    let mut i: usize = 0;
    while i < modules.len()
        invariant
            i <= modules@.len(),
            checks@.len() == i,
            forall|k: int| 0 <= k < i ==> module_verdict(modules@[k], #[trigger] checks@[k]),
        decreases modules@.len() - i,
    {
        let m = &modules[i];
        match parse_module_arg(m.module.as_str()) {
            None => {
                let mut e = String::from_str("unknown module: ");
                e.append(m.module.as_str());
                checks.push(ModuleCheck::UnknownModule(e));
            },
            Some(arg) => {
                let blocks = known_blocks(arg);
                let mut verdicts: Vec<Result<String, String>> = Vec::new();
                let mut j: usize = 0;
                while j < m.settings.len()
                    invariant
                        j <= m.settings@.len(),
                        verdicts@.len() == j,
                        is_catalog_of(arg, blocks@),
                        forall|k: int|
                            0 <= k < j ==> setting_verdict(
                                blocks@,
                                m.module@,
                                m.settings@[k].feature@,
                                m.settings@[k].value@,
                                #[trigger] verdicts@[k],
                            ),
                    decreases m.settings@.len() - j,
                {
                    let s = &m.settings[j];
                    let v = check_setting(&blocks, m.module.as_str(), s.feature.as_str(), s.value.as_str());
                    verdicts.push(v);
                    j = j + 1;
                }
                let c = ModuleCheck::Checked(verdicts);
                proof {
                    assert(is_catalog_of(arg, blocks@));
                }
                checks.push(c);
            },
        }
        i = i + 1;
    }
    checks
}

/// The final line of a successful validation.
pub fn validation_summary(ok_count: usize) -> (r: String)
    ensures
        r@ == "Profile valid ("@ + dec_chars(ok_count as nat) + " features)"@,
{
    let mut s = String::from_str("Profile valid (");
    push_decimal(&mut s, ok_count as u64);
    s.append(" features)");
    s
}

/// The error of a failed validation.
pub fn validation_failure(error_count: usize) -> (r: String)
    ensures
        r@ == "profile validation failed ("@ + dec_chars(error_count as nat) + " errors)"@,
{
    let mut s = String::from_str("profile validation failed (");
    push_decimal(&mut s, error_count as u64);
    s.append(" errors)");
    s
}

/// The closing line of a profile apply.
pub fn apply_summary(written: usize, failed: usize) -> (r: String)
    ensures
        r@ == "Summary: "@ + dec_chars(written as nat) + " written, "@ + dec_chars(failed as nat)
            + " failed"@,
{
    let mut s = String::from_str("Summary: ");
    push_decimal(&mut s, written as u64);
    s.append(" written, ");
    push_decimal(&mut s, failed as u64);
    s.append(" failed");
    s
}

/// The error of a profile apply in which some writes failed.
pub fn apply_failure(failed: usize) -> (r: String)
    ensures
        r@ == dec_chars(failed as nat) + " feature(s) failed to write"@,
{
    let mut s = String::new();
    push_decimal(&mut s, failed as u64);
    s.append(" feature(s) failed to write");
    s
}

/// The number of settings of the first `k` modules.
pub open spec fn settings_upto(modules: Seq<ProfileModule>, k: int) -> nat
    decreases k,
{
    if k <= 0 || k > modules.len() {
        0
    } else {
        settings_upto(modules, k - 1) + modules[k - 1].settings@.len()
    }
}

/// The number of settings of a profile.
pub open spec fn settings_total(modules: Seq<ProfileModule>) -> nat {
    settings_upto(modules, modules.len() as int)
}

/// Counting settings over more modules never gives fewer.
pub proof fn lemma_settings_upto_monotone(modules: Seq<ProfileModule>, j: int, k: int)
    requires
        0 <= j <= k <= modules.len(),
    ensures
        settings_upto(modules, j) <= settings_upto(modules, k),
    decreases k - j,
{
    if j < k {
        lemma_settings_upto_monotone(modules, j, k - 1);
    }
}

/// The number of settings of a profile, or `None` when it does not fit in a `usize`.
pub fn count_settings(modules: &Vec<ProfileModule>) -> (r: Option<usize>)
    ensures
        match r {
            Some(n) => n == settings_total(modules@),
            None => settings_total(modules@) > usize::MAX,
        },
{
    let mut total: usize = 0;
    let mut i: usize = 0;
    while i < modules.len()
        invariant
            i <= modules@.len(),
            total == settings_upto(modules@, i as int),
        decreases modules@.len() - i,
    {
        let n = modules[i].settings.len();
        if total > usize::MAX - n {
            proof {
                lemma_settings_upto_monotone(modules@, i as int + 1, modules@.len() as int);
            }
            return None;
        }
        total = total + n;
        i = i + 1;
    }
    Some(total)
}

/// Where a profile apply stops next from setting `si` of module `mi` on: at a module whose
/// name is unknown (checked when its first setting is due, even if it has none), at the
/// next setting, or past the last module.
pub open spec fn next_stop(modules: Seq<ProfileModule>, mi: int, si: int) -> (int, int)
    decreases modules.len() - mi,
{
    if mi < 0 || mi >= modules.len() {
        (modules.len() as int, 0)
    } else if si == 0 && module_arg_named(modules[mi].module@) is None {
        (mi, 0)
    } else if si < modules[mi].settings@.len() {
        (mi, si)
    } else {
        next_stop(modules, mi + 1, 0)
    }
}

/// What a profile apply asks its driver to do next.
#[derive(Debug)]
pub enum ApplyStep {
    /// Write `value` into `feature` of `module` (as the write command does, confirmed), then
    /// report whether it succeeded.
    WriteSetting { module: ModuleArg, feature: String, value: String },
    /// Every setting was tried: how many were written and how many failed.
    Done { written: usize, failed: usize },
    /// A module name of the profile is unknown: the apply stops with this message.
    Stopped(String),
}

/// `s` is the step at stop `(p, q)` of `modules` with these counts.
pub open spec fn apply_step_at(
    modules: Seq<ProfileModule>,
    p: int,
    q: int,
    s: ApplyStep,
    written: nat,
    failed: nat,
) -> bool {
    if p >= modules.len() {
        s matches ApplyStep::Done { written: w, failed: f } && w == written && f == failed
    } else if q == 0 && module_arg_named(modules[p].module@) is None {
        s matches ApplyStep::Stopped(m) && m@ == "unknown module: "@ + modules[p].module@
    } else {
        s matches ApplyStep::WriteSetting { module, feature, value } && module_arg_named(
            modules[p].module@,
        ) == Some(module) && feature@ == modules[p].settings@[q].feature@ && value@
            == modules[p].settings@[q].value@
    }
}

/// The state of one profile apply: the settings are written in profile order, each
/// module's name checked before its first setting.
pub struct ProfileApply {
    modules: Vec<ProfileModule>,
    mi: usize,
    si: usize,
    written: usize,
    failed: usize,
}

impl ProfileApply {
    /// The modules of the profile.
    pub closed spec fn spec_modules(&self) -> Seq<ProfileModule> {
        self.modules@
    }

    /// The module and setting positions of the current stop.
    pub closed spec fn spec_position(&self) -> (int, int) {
        (self.mi as int, self.si as int)
    }

    /// The settings written so far.
    pub closed spec fn spec_written(&self) -> nat {
        self.written as nat
    }

    /// The settings whose write failed so far.
    pub closed spec fn spec_failed(&self) -> nat {
        self.failed as nat
    }

    /// The position is a stop, and the counts are those of the settings before it.
    pub closed spec fn wf(&self) -> bool {
        let m = self.modules@;
        &&& self.mi <= m.len()
        &&& self.mi < m.len() ==> self.si <= m[self.mi as int].settings@.len()
        &&& self.mi == m.len() ==> self.si == 0
        &&& self.mi < m.len() && self.si > 0 ==> module_arg_named(m[self.mi as int].module@) is Some
        &&& self.written + self.failed == settings_upto(m, self.mi as int) + self.si
        &&& settings_total(m) <= usize::MAX
    }

    /// Moves on to the next stop from the current position.
    fn advance(&mut self) -> (r: ApplyStep)
        requires
            old(self).wf(),
        ensures
            final(self).wf(),
            final(self).modules@ == old(self).modules@,
            final(self).written == old(self).written,
            final(self).failed == old(self).failed,
            (final(self).mi as int, final(self).si as int) == next_stop(
                old(self).modules@,
                old(self).mi as int,
                old(self).si as int,
            ),
            apply_step_at(
                old(self).modules@,
                final(self).mi as int,
                final(self).si as int,
                r,
                old(self).written as nat,
                old(self).failed as nat,
            ),
        decreases old(self).modules@.len() - old(self).mi,
    {
        if self.mi >= self.modules.len() {
            return ApplyStep::Done { written: self.written, failed: self.failed };
        }
        let known = parse_module_arg(self.modules[self.mi].module.as_str());
        if self.si == 0 && known.is_none() {
            let mut m = String::from_str("unknown module: ");
            m.append(self.modules[self.mi].module.as_str());
            return ApplyStep::Stopped(m);
        }
        if self.si < self.modules[self.mi].settings.len() {
            let module = known.unwrap();
            let s = &self.modules[self.mi].settings[self.si];
            return ApplyStep::WriteSetting {
                module,
                feature: s.feature.clone(),
                value: s.value.clone(),
            };
        }
        proof {
            assert(settings_upto(self.modules@, self.mi as int + 1) == settings_upto(
                self.modules@,
                self.mi as int,
            ) + self.si);
        }
        self.mi = self.mi + 1;
        self.si = 0;
        self.advance()
    }

    /// The name, as the profile writes it, of the module of the current stop.
    pub fn module_text(&self) -> (r: &str)
        requires
            self.wf(),
            self.spec_position().0 < self.spec_modules().len(),
        ensures
            r@ == self.spec_modules()[self.spec_position().0].module@,
    {
        self.modules[self.mi].module.as_str()
    }

    /// Starts applying a profile's settings, first module first.
    pub fn start(modules: Vec<ProfileModule>) -> (r: (ProfileApply, ApplyStep))
        requires
            settings_total(modules@) <= usize::MAX,
        ensures
            r.0.wf(),
            r.0.spec_modules() == modules@,
            r.0.spec_written() == 0,
            r.0.spec_failed() == 0,
            r.0.spec_position() == next_stop(modules@, 0, 0),
            apply_step_at(modules@, r.0.spec_position().0, r.0.spec_position().1, r.1, 0, 0),
            r.1 matches ApplyStep::Done { written, failed } ==> written + failed == settings_total(
                modules@,
            ),
    {
        let mut run = ProfileApply { modules, mi: 0, si: 0, written: 0, failed: 0 };
        let step = run.advance();
        (run, step)
    }

    /// Takes the result of the write asked for (the current stop is a setting of a known
    /// module) and moves on to the next setting.
    pub fn on_setting_written(&mut self, ok: bool) -> (r: ApplyStep)
        requires
            old(self).wf(),
            old(self).spec_position().0 < old(self).spec_modules().len(),
            old(self).spec_position().1 < old(self).spec_modules()[old(
                self,
            ).spec_position().0].settings@.len(),
            module_arg_named(old(self).spec_modules()[old(self).spec_position().0].module@) is Some,
        ensures
            final(self).wf(),
            final(self).spec_modules() == old(self).spec_modules(),
            final(self).spec_written() == old(self).spec_written() + if ok {
                1nat
            } else {
                0nat
            },
            final(self).spec_failed() == old(self).spec_failed() + if ok {
                0nat
            } else {
                1nat
            },
            final(self).spec_position() == next_stop(
                old(self).spec_modules(),
                old(self).spec_position().0,
                old(self).spec_position().1 + 1,
            ),
            apply_step_at(
                old(self).spec_modules(),
                final(self).spec_position().0,
                final(self).spec_position().1,
                r,
                final(self).spec_written(),
                final(self).spec_failed(),
            ),
            r matches ApplyStep::Done { written, failed } ==> written + failed == settings_total(
                old(self).spec_modules(),
            ),
    {
        proof {
            lemma_settings_upto_monotone(
                self.modules@,
                self.mi as int + 1,
                self.modules@.len() as int,
            );
        }
        if ok {
            self.written = self.written + 1;
        } else {
            self.failed = self.failed + 1;
        }
        self.si = self.si + 1;
        self.advance()
    }
}

} // verus!
