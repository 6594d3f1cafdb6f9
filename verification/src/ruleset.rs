//! Ruleset accumulation and self-restriction.
//!
//! The kernel-held ruleset is reached through a small gateway of trusted
//! wrappers around the `landlock` crate; everything decided here — which
//! rules go in, in what order, under which handled mask, and how the
//! enforcement outcome is interpreted — is verified. The builder carries a
//! ghost model of the rules submitted so far, every one of them within the
//! negotiated handled mask. Restricting consumes the builder: no rule can be
//! added afterwards, and restriction cannot run twice.

use vstd::prelude::*;
use landlock::{Compatible, RulesetAttr, RulesetCreatedAttr};
use crate::access::{
    valid_level, mask_within, spec_handled_mask, spec_read_mask, handled_mask, read_mask,
};
use crate::paths::{
    PathKind, PathRule, SLASH, classify_spec, classify_path, lemma_classified_mask_within_handled,
};

verus! {

#[verifier::external_type_specification]
#[verifier::external_body]
pub struct ExRulesetCreated(landlock::RulesetCreated);

/// What the kernel reported about the facility itself after restriction.
#[derive(Clone, Copy, PartialEq, Eq, Structural, Debug)]
pub enum FacilityState {
    /// The facility is built into the kernel but disabled.
    NotEnabled,
    /// The facility is not built into the kernel.
    NotImplemented,
    /// The facility is available and working.
    Available,
}

/// How much of the submitted ruleset the kernel enforced.
#[derive(Clone, Copy, PartialEq, Eq, Structural, Debug)]
pub enum RuleEnforcement {
    /// All requested restrictions are enforced.
    Full,
    /// Some requested restrictions are enforced, best-effort.
    Partial,
    /// Nothing is enforced.
    NotEnforced,
}

/// The raw outcome of self-restriction, before interpretation.
#[derive(Clone, Copy, PartialEq, Eq, Structural, Debug)]
pub struct RawEnforcement {
    pub facility: FacilityState,
    pub degree: RuleEnforcement,
}

/// The interpreted outcome of self-restriction.
#[derive(Clone, Copy, PartialEq, Eq, Structural, Debug)]
pub enum EnforcementStatus {
    /// Every requested restriction holds.
    FullyEnforced,
    /// A known, bounded subset of the requested restrictions holds.
    PartiallyEnforced,
    /// No restriction holds; proceeding would run the target unsandboxed.
    Unavailable,
}

/// A fatal failure while negotiating, installing rules or restricting.
pub enum SetupError {
    /// The ruleset could not be created (facility probe or creation failed).
    RulesetCreation(String),
    /// A path could not be opened, or the kernel rejected its rule.
    RuleInstallation { path: Vec<u8>, detail: String },
    /// The self-restriction call itself failed.
    Restriction(String),
    /// Restriction ran but nothing is enforced: the facility is absent,
    /// disabled, or supports none of the requested rights. Carries the raw
    /// outcome for diagnostics.
    Unavailable(RawEnforcement),
}

/// One requested path with what metadata said about it and the intent.
pub struct AccessRequest {
    pub path: Vec<u8>,
    pub kind: PathKind,
    pub write: bool,
}

/// How a raw restriction outcome is read: an absent or disabled facility, or
/// a ruleset the kernel did not enforce at all, is `Unavailable`; partial
/// enforcement is the one non-fatal degradation; anything else is full
/// enforcement.
pub open spec fn spec_interpret(raw: RawEnforcement) -> EnforcementStatus {
    if raw.facility == FacilityState::NotEnabled || raw.facility == FacilityState::NotImplemented
        || raw.degree == RuleEnforcement::NotEnforced {
        EnforcementStatus::Unavailable
    } else if raw.degree == RuleEnforcement::Partial {
        EnforcementStatus::PartiallyEnforced
    } else {
        EnforcementStatus::FullyEnforced
    }
}

/// Interprets the raw outcome of self-restriction, exactly as
/// `spec_interpret` says.
pub fn interpret_enforcement(raw: &RawEnforcement) -> (s: EnforcementStatus)
    ensures
        s == spec_interpret(*raw),
{
    match raw.facility {
        FacilityState::NotEnabled => EnforcementStatus::Unavailable,
        FacilityState::NotImplemented => EnforcementStatus::Unavailable,
        FacilityState::Available => match raw.degree {
            RuleEnforcement::NotEnforced => EnforcementStatus::Unavailable,
            RuleEnforcement::Partial => EnforcementStatus::PartiallyEnforced,
            RuleEnforcement::Full => EnforcementStatus::FullyEnforced,
        },
    }
}

/// Relies on landlock's `Ruleset`: `default()` probes the kernel once,
/// `handle_access` declares the handled rights best-effort, and `create()`
/// issues the ruleset-creation call. Nothing is promised of the opaque
/// handle; failures come back as the crate's error text.
#[verifier::external_body]
fn ll_create_ruleset(handled_bits: u64) -> (r: Result<landlock::RulesetCreated, String>) {
    let handled = enumflags2::BitFlags::<landlock::AccessFs>::from_bits_truncate(handled_bits);
    let ruleset = landlock::Ruleset::default().set_compatibility(
        landlock::CompatLevel::BestEffort,
    ).handle_access(handled);
    match ruleset {
        Ok(rs) => match rs.create() {
            Ok(created) => Ok(created),
            Err(e) => Err(format!("{e}")),
        },
        Err(e) => Err(format!("{e}")),
    }
}

/// Relies on landlock's `PathFd::new` (opens the path close-on-exec, the
/// descriptor closed again when the rule value drops) and
/// `RulesetCreated::add_rule` with a path-beneath rule carrying exactly the
/// given access bits. Nothing is promised of the opaque handle. The path
/// crosses this boundary as UTF-8: a path that is not valid UTF-8 cannot be
/// represented here and is reported as an installation failure rather than
/// opened.
#[verifier::external_body]
fn ll_add_path_rule(rs: landlock::RulesetCreated, path: &Vec<u8>, mask_bits: u64) -> (r: Result<
    landlock::RulesetCreated,
    String,
>) {
    let p = match core::str::from_utf8(path.as_slice()) {
        Ok(p) => p,
        Err(e) => return Err(format!("{e}")),
    };
    let fd = match landlock::PathFd::new(p) {
        Ok(fd) => fd,
        Err(e) => return Err(format!("{e}")),
    };
    let access = enumflags2::BitFlags::<landlock::AccessFs>::from_bits_truncate(mask_bits);
    match rs.add_rule(landlock::PathBeneath::new(fd, access)) {
        Ok(next) => Ok(next),
        Err(e) => Err(format!("{e}")),
    }
}

/// Relies on landlock's `RulesetCreated::restrict_self`: it sets the
/// no-new-privileges attribute (failure there surfaces as the error case)
/// and applies the ruleset to the calling process. The status enums are
/// carried over variant by variant. The outcome depends on the running
/// kernel, so nothing more is promised of it.
#[verifier::external_body]
fn ll_restrict_self(rs: landlock::RulesetCreated) -> (r: Result<RawEnforcement, String>) {
    let status = rs.restrict_self().map_err(|e| format!("{e}"))?;
    let facility = match status.landlock {
        landlock::LandlockStatus::NotEnabled => FacilityState::NotEnabled,
        landlock::LandlockStatus::NotImplemented => FacilityState::NotImplemented,
        landlock::LandlockStatus::Available { .. } => FacilityState::Available,
    };
    let degree = match status.ruleset {
        landlock::RulesetStatus::FullyEnforced => RuleEnforcement::Full,
        landlock::RulesetStatus::PartiallyEnforced => RuleEnforcement::Partial,
        landlock::RulesetStatus::NotEnforced => RuleEnforcement::NotEnforced,
    };
    Ok(RawEnforcement { facility, degree })
}

/// A ruleset descriptor under construction: the kernel-held handle, the
/// handled mask declared for it, and the model of the rules submitted so
/// far. Every submitted mask stays within the handled mask.
pub struct RulesetBuilder {
    inner: landlock::RulesetCreated,
    handled: u64,
    rules: Ghost<Seq<(Seq<u8>, u64)>>,
}

impl RulesetBuilder {
    /// The access mask this ruleset declares it governs.
    pub closed spec fn handled(self) -> u64 {
        self.handled
    }

    /// The rules submitted so far: anchor path and mask, in order.
    pub closed spec fn rules(self) -> Seq<(Seq<u8>, u64)> {
        self.rules@
    }

    /// No submitted rule grants a right outside the handled mask.
    pub open spec fn wf(self) -> bool {
        forall|j: int|
            0 <= j < self.rules().len() ==> #[trigger] mask_within(
                self.rules()[j].1,
                self.handled(),
            )
    }

    /// Creates an empty ruleset that declares `handled` to the kernel.
    pub fn create(handled: u64) -> (r: Result<RulesetBuilder, String>)
        ensures
            r matches Ok(b) ==> b.handled() == handled && b.rules() == Seq::<(Seq<u8>, u64)>::empty()
                && b.wf(),
    {
        match ll_create_ruleset(handled) {
            Ok(inner) => Ok(RulesetBuilder { inner, handled, rules: Ghost(Seq::empty()) }),
            Err(e) => Err(e),
        }
    }

    /// Submits one path rule. The rule's mask must stay within the handled
    /// mask — the kernel rejects anything more, and this builder never asks
    /// it to.
    pub fn add_rule(self, rule: &PathRule) -> (r: Result<RulesetBuilder, String>)
        requires
            mask_within(rule.mask, self.handled()),
            self.wf(),
        ensures
            r matches Ok(b) ==> b.handled() == self.handled() && b.rules() == self.rules().push(
                (rule.path@, rule.mask),
            ) && b.wf(),
    {
        let ghost prev = self.rules@;
        let ghost handled_ghost = self.handled;
        proof {
            assert forall|j: int| 0 <= j < prev.len() implies #[trigger] mask_within(
                prev[j].1,
                handled_ghost,
            ) by {
                assert(mask_within(self.rules()[j].1, self.handled()));
            }
        }
        let RulesetBuilder { inner, handled, rules: _ } = self;
        match ll_add_path_rule(inner, &rule.path, rule.mask) {
            Ok(next) => {
                let ghost appended = prev.push((rule.path@, rule.mask));
                proof {
                    assert forall|j: int| 0 <= j < appended.len() implies #[trigger] mask_within(
                        appended[j].1,
                        handled_ghost,
                    ) by {
                        if j < appended.len() - 1 {
                            assert(appended[j] == prev[j]);
                        }
                    }
                }
                Ok(RulesetBuilder { inner: next, handled, rules: Ghost(appended) })
            },
            Err(e) => Err(e),
        }
    }

    /// Applies the accumulated ruleset to the calling process. Consumes the
    /// builder: installation is a one-way transition, and no rule can be
    /// added once it has happened.
    pub fn restrict_self(self) -> (r: Result<RawEnforcement, String>) {
        let RulesetBuilder { inner, handled: _, rules: _ } = self;
        ll_restrict_self(inner)
    }
}

/// The rules that classifying each request at `level` yields, in order.
pub open spec fn classified_rules(reqs: Seq<AccessRequest>, level: u8) -> Seq<(Seq<u8>, u64)> {
    reqs.map_values(|q: AccessRequest| classify_spec(q.path@, q.kind, q.write, level))
}

/// The full rule list submitted by `enforce`: the optional implicit
/// read-only grant on the filesystem root, then the classified requests.
pub open spec fn effective_rules(
    reqs: Seq<AccessRequest>,
    grant_root_read: bool,
    level: u8,
) -> Seq<(Seq<u8>, u64)> {
    let base = classified_rules(reqs, level);
    if grant_root_read {
        seq![(seq![SLASH], spec_read_mask(level))] + base
    } else {
        base
    }
}

/// Law: in the submitted rule list, the optional root grant comes first and
/// every request's rule is exactly its classification, in request order.
pub proof fn lemma_effective_rules_indexing(
    reqs: Seq<AccessRequest>,
    grant_root_read: bool,
    level: u8,
)
    ensures
        effective_rules(reqs, grant_root_read, level).len() == reqs.len() + if grant_root_read {
            1int
        } else {
            0int
        },
        grant_root_read ==> effective_rules(reqs, grant_root_read, level)[0] == (
            seq![SLASH],
            spec_read_mask(level),
        ),
        forall|j: int|
            0 <= j < reqs.len() ==> effective_rules(reqs, grant_root_read, level)[
                j + if grant_root_read {
                    1int
                } else {
                    0int
                }
            ] == #[trigger] classify_spec(reqs[j].path@, reqs[j].kind, reqs[j].write, level),
{
}

/// The outcome of a successful enforcement: the interpreted status — never
/// `Unavailable` — and the model of the rules that were submitted.
pub struct Enforcement {
    pub status: EnforcementStatus,
    pub rules: Ghost<Seq<(Seq<u8>, u64)>>,
}

/// Runs the whole restriction sequence: creates a ruleset declaring the
/// handled mask of `level`, optionally grants the filesystem root read-only
/// (so a dynamically linked target can resolve its loader), classifies and
/// submits every request in order, applies self-restriction, and interprets
/// the outcome. An `Unavailable` outcome is an error: enforcement is never
/// silently skipped.
pub fn enforce(level: u8, grant_root_read: bool, requests: &Vec<AccessRequest>) -> (r: Result<
    Enforcement,
    SetupError,
>)
    requires
        valid_level(level),
    ensures
        r matches Ok(e) ==> {
            &&& e.status != EnforcementStatus::Unavailable
            &&& e.rules@ == effective_rules(requests@, grant_root_read, level)
            &&& forall|j: int|
                0 <= j < e.rules@.len() ==> #[trigger] mask_within(
                    e.rules@[j].1,
                    spec_handled_mask(level),
                )
        },
        r matches Err(SetupError::Unavailable(raw)) ==> spec_interpret(raw)
            == EnforcementStatus::Unavailable,
        r matches Err(SetupError::RuleInstallation { path, detail }) ==> exists|j: int|
            0 <= j < effective_rules(requests@, grant_root_read, level).len()
                && #[trigger] effective_rules(requests@, grant_root_read, level)[j].0 == path@,
{
    let handled = handled_mask(level);
    let mut builder = match RulesetBuilder::create(handled) {
        Ok(b) => b,
        Err(m) => return Err(SetupError::RulesetCreation(m)),
    };
    if grant_root_read {
        let mut root: Vec<u8> = Vec::new();
        root.push(SLASH);
        let rule = PathRule { path: root, mask: read_mask(level) };
        proof {
            crate::access::lemma_base_masks_within_handled(level);
            assert(rule.path@ =~= seq![SLASH]);
        }
        builder = match builder.add_rule(&rule) {
            Ok(b) => b,
            Err(m) => {
                proof {
                    assert(effective_rules(requests@, grant_root_read, level)[0].0
                        == rule.path@);
                }
                return Err(SetupError::RuleInstallation { path: rule.path, detail: m });
            },
        };
    }
    let ghost prefix: Seq<(Seq<u8>, u64)> = if grant_root_read {
        seq![(seq![SLASH], spec_read_mask(level))]
    } else {
        Seq::empty()
    };
    proof {
        assert(builder.rules() =~= prefix);
    }
    let mut k: usize = 0;
    while k < requests.len()
        invariant
            valid_level(level),
            k <= requests@.len(),
            builder.handled() == spec_handled_mask(level),
            builder.wf(),
            builder.rules() == prefix + classified_rules(requests@.subrange(0, k as int), level),
        decreases requests@.len() - k,
    {
        let q = &requests[k];
        let rule = classify_path(&q.path, q.kind, q.write, level);
        proof {
            lemma_classified_mask_within_handled(q.path@, q.kind, q.write, level);
        }
        builder = match builder.add_rule(&rule) {
            Ok(b) => b,
            Err(m) => {
                proof {
                    let er = effective_rules(requests@, grant_root_read, level);
                    let off: int = if grant_root_read { 1int } else { 0int };
                    assert(classified_rules(requests@, level)[k as int] == classify_spec(
                        requests@[k as int].path@,
                        requests@[k as int].kind,
                        requests@[k as int].write,
                        level,
                    ));
                    assert(er[off + k] == classified_rules(requests@, level)[k as int]);
                    assert(0 <= off + k < er.len() && er[off + k].0 == rule.path@);
                }
                return Err(SetupError::RuleInstallation { path: rule.path, detail: m });
            },
        };
        proof {
            assert(requests@.subrange(0, k + 1 as int) =~= requests@.subrange(0, k as int).push(
                requests@[k as int],
            ));
            assert(classified_rules(requests@.subrange(0, k + 1 as int), level) =~= classified_rules(
                requests@.subrange(0, k as int),
                level,
            ).push(classify_spec(q.path@, q.kind, q.write, level)));
            assert(builder.rules() =~= prefix + classified_rules(
                requests@.subrange(0, k + 1 as int),
                level,
            ));
        }
        k = k + 1;
    }
    proof {
        assert(requests@.subrange(0, requests@.len() as int) =~= requests@);
        assert(builder.rules() =~= effective_rules(requests@, grant_root_read, level));
    }
    let ghost installed = builder.rules();
    let ghost handled_spec = builder.handled();
    let ghost builder_wf = builder.wf();
    let raw = match builder.restrict_self() {
        Ok(r) => r,
        Err(m) => return Err(SetupError::Restriction(m)),
    };
    let status = interpret_enforcement(&raw);
    match status {
        EnforcementStatus::Unavailable => Err(SetupError::Unavailable(raw)),
        _ => Ok(Enforcement { status, rules: Ghost(installed) }),
    }
}

} // verus!
