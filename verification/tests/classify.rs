use landlock_runner::access::{
    handled_mask, read_mask, write_mask, ACCESS_IOCTL_DEV, ACCESS_REFER, ACCESS_TRUNCATE,
    CREATION_RIGHTS, REMOVAL_RIGHTS, WRITE_CLASS_RIGHTS,
};
use landlock_runner::paths::{classify_path, parent_dir, PathKind};
use landlock_runner::ruleset::{
    interpret_enforcement, EnforcementStatus, FacilityState, RawEnforcement, RuleEnforcement,
};

#[test]
fn masks_have_their_documented_values() {
    assert_eq!(read_mask(1), 0xd);
    assert_eq!(read_mask(3), 0xd);
    assert_eq!(write_mask(1), 0x1fff);
    assert_eq!(write_mask(2), 0x1fff | ACCESS_REFER | ACCESS_TRUNCATE);
    assert_eq!(write_mask(3), 0x1fff | ACCESS_REFER | ACCESS_TRUNCATE | ACCESS_IOCTL_DEV);
    assert_eq!(handled_mask(1), write_mask(1));
    assert_eq!(handled_mask(3), 0xffff);
}

#[test]
fn handled_mask_grows_strictly_with_the_level() {
    let h1 = handled_mask(1);
    let h2 = handled_mask(2);
    let h3 = handled_mask(3);
    assert_eq!(h1 & h2, h1);
    assert_eq!(h2 & h3, h2);
    assert_ne!(h1, h2);
    assert_ne!(h2, h3);
}

#[test]
fn directory_path_is_anchored_unchanged() {
    let rule = classify_path(&b"/usr".to_vec(), PathKind::Directory, false, 3);
    assert_eq!(rule.path, b"/usr".to_vec());
    assert_eq!(rule.mask, read_mask(3));
}

#[test]
fn read_only_mask_never_grants_write_class_rights() {
    for kind in [PathKind::Directory, PathKind::NonDirectory, PathKind::Missing] {
        for level in 1..=3u8 {
            let rule = classify_path(&b"/etc/passwd".to_vec(), kind, false, level);
            assert_eq!(rule.mask & (WRITE_CLASS_RIGHTS | REMOVAL_RIGHTS | CREATION_RIGHTS), 0);
        }
    }
}

#[test]
fn non_directory_is_anchored_at_parent_without_removal_or_creation() {
    let rw = classify_path(&b"/dev/null".to_vec(), PathKind::NonDirectory, true, 3);
    assert_eq!(rw.path, b"/dev".to_vec());
    assert_eq!(rw.mask, write_mask(3) & !(REMOVAL_RIGHTS | CREATION_RIGHTS));
    assert_eq!(rw.mask & (REMOVAL_RIGHTS | CREATION_RIGHTS), 0);
    let ro = classify_path(&b"/dev/null".to_vec(), PathKind::NonDirectory, false, 3);
    assert_eq!(ro.path, b"/dev".to_vec());
    assert_eq!(ro.mask & (REMOVAL_RIGHTS | CREATION_RIGHTS), 0);
}

#[test]
fn missing_path_passes_through_unchanged() {
    let rule = classify_path(&b"/does/not/exist".to_vec(), PathKind::Missing, true, 3);
    assert_eq!(rule.path, b"/does/not/exist".to_vec());
    assert_eq!(rule.mask, write_mask(3));
}

#[test]
fn parent_directories() {
    assert_eq!(parent_dir(&b"/dev/null".to_vec()), b"/dev".to_vec());
    assert_eq!(parent_dir(&b"/foo".to_vec()), b"/".to_vec());
    assert_eq!(parent_dir(&b"foo".to_vec()), b"".to_vec());
    assert_eq!(parent_dir(&b"/".to_vec()), b"/".to_vec());
    assert_eq!(parent_dir(&b"/a/b/".to_vec()), b"/a".to_vec());
    assert_eq!(parent_dir(&b"a/b".to_vec()), b"a".to_vec());
    assert_eq!(parent_dir(&b"".to_vec()), b"/".to_vec());
}

#[test]
fn enforcement_interpretation() {
    let full = RawEnforcement { facility: FacilityState::Available, degree: RuleEnforcement::Full };
    assert_eq!(interpret_enforcement(&full), EnforcementStatus::FullyEnforced);
    let partial = RawEnforcement {
        facility: FacilityState::Available,
        degree: RuleEnforcement::Partial,
    };
    assert_eq!(interpret_enforcement(&partial), EnforcementStatus::PartiallyEnforced);
    let none = RawEnforcement {
        facility: FacilityState::Available,
        degree: RuleEnforcement::NotEnforced,
    };
    assert_eq!(interpret_enforcement(&none), EnforcementStatus::Unavailable);
    let off = RawEnforcement { facility: FacilityState::NotEnabled, degree: RuleEnforcement::Full };
    assert_eq!(interpret_enforcement(&off), EnforcementStatus::Unavailable);
    let absent = RawEnforcement {
        facility: FacilityState::NotImplemented,
        degree: RuleEnforcement::Full,
    };
    assert_eq!(interpret_enforcement(&absent), EnforcementStatus::Unavailable);
}
