use xrizer::action_manifest::classify::{
    classify, input_kind, pose_type, resolve, skeleton_hand, BindingClass, InputKind, SourceInput,
};
use xrizer::action_manifest::loader::localized_name;
use xrizer::action_manifest::names::{
    action_set_name, clip_localized_name, cleaned_name, get_hand_prefix, leaf_name,
    make_extra_action_key, parse_hand_from_path, sanitize_name,
};
use xrizer::action_manifest::classify::BindingClass::{
    ClickFromPull, Dpad, Grab, Plain, Rejected, Threshold, Toggle, TouchFromPull,
};
use xrizer::action_manifest::ActionKind::{Bool, Haptic, Vector1, Vector2};
use xrizer::action_manifest::{
    ActionKind, ActionType, BoundPoseType, DpadSubMode, Localization, SourceMode,
};
use xrizer::handles::{canonicalize, HandleMap};
use xrizer::profiles::Profile;
use xrizer::runtime::Hand;
use xrizer::strings::{chars_of, concat3, contains, ends_with, replace, starts_with, str_eq};

#[test]
fn string_helpers() {
    assert_eq!(chars_of("añb"), vec!['a', 'ñ', 'b']);
    assert!(contains("abcabc", "cab"));
    assert!(contains("abc", ""));
    assert!(contains("", ""));
    assert!(!contains("", "a"));
    assert!(!contains("abc", "abcd"));
    assert!(starts_with("/user/hand/left/input", "/user/hand/left"));
    assert!(!starts_with("/user/hand", "/user/hand/left"));
    assert!(ends_with("input/trackpad", "trackpad"));
    assert!(ends_with("trackpad", "trackpad"));
    assert!(!ends_with("pad", "trackpad"));
    assert!(str_eq("abc", "abc"));
    assert!(!str_eq("abc", "abd"));
    assert!(!str_eq("abc", "ab"));
    assert!(str_eq("", ""));
    assert_eq!(xrizer::strings::concat("ab", "cd"), "abcd");
    assert_eq!(concat3("a", "", "c"), "ac");
    assert_eq!(replace("a/b/c", "/", "_"), "a_b_c");
    assert_eq!(replace("aaaa", "aa", "b"), "bb");
    assert_eq!(replace("aaa", "aa", "b"), "ba");
    assert_eq!(replace("abc", "", "x"), "abc");
    assert_eq!(replace("abc", "abcd", "x"), "abc");
    assert_eq!(replace("grip", "grip", "squeeze"), "squeeze");
    assert_eq!(replace("xñx", "ñ", ""), "xx");
    assert_eq!(replace("", "a", "b"), "");
}

#[test]
fn action_paths() {
    assert_eq!(action_set_name("/actions/set1/in/boolact").unwrap(), "/actions/set1");
    assert_eq!(action_set_name("/actions/main/x").unwrap(), "/actions/main");
    assert_eq!(action_set_name("/a/b/").unwrap(), "/a/b");
    assert_eq!(action_set_name("/actions/main"), None);
    assert_eq!(action_set_name("/actions//x"), None);
    assert_eq!(action_set_name("//main/x"), None);
    assert_eq!(action_set_name("actions/main/x"), None);
    assert_eq!(action_set_name(""), None);
    assert_eq!(action_set_name("/"), None);
    assert_eq!(leaf_name("/actions/set1/in/boolact"), "boolact");
    assert_eq!(leaf_name("boolact"), "boolact");
    assert_eq!(leaf_name("/actions/"), "");
    assert_eq!(leaf_name(""), "");
    assert_eq!(parse_hand_from_path("/user/hand/left/input/a"), Some(Hand::Left));
    assert_eq!(parse_hand_from_path("/user/hand/right"), Some(Hand::Right));
    assert_eq!(parse_hand_from_path("/user/head"), None);
    assert_eq!(parse_hand_from_path("user/hand/left"), None);
    assert_eq!(get_hand_prefix("/user/hand/leftover"), Some("/user/hand/left"));
    assert_eq!(get_hand_prefix("/user/hand/right/output/haptic"), Some("/user/hand/right"));
    assert_eq!(get_hand_prefix("/user/gamepad"), None);
    assert_eq!(skeleton_hand("/skeleton/hand/left"), Some(Hand::Left));
    assert_eq!(skeleton_hand("/skeleton/hand/right"), Some(Hand::Right));
    assert_eq!(skeleton_hand("/skeleton/hand"), None);
    assert_eq!(pose_type("/user/hand/left/pose/raw"), Some(BoundPoseType::Raw));
    assert_eq!(pose_type("/user/hand/left/pose/gdc2015"), Some(BoundPoseType::Gdc2015));
    assert_eq!(pose_type("/user/hand/left/pose/tip"), None);
}

#[test]
fn sanitized_names() {
    assert_eq!(sanitize_name("boolact"), "boolact");
    assert_eq!(sanitize_name("a-b_c.9"), "a-b_c_9");
    assert_eq!(sanitize_name("Bool Act!"), "_ool__ct_");
    assert_eq!(sanitize_name("ünï"), "_n_");
    let longest = "a".repeat(63);
    assert_eq!(sanitize_name(&longest), longest);
    let too_long = "a".repeat(64);
    // FNV-1a over the characters, in sixteen hexadecimal digits.
    let mut h: u64 = 0xcbf29ce484222325;
    for c in too_long.chars() {
        h = (h ^ c as u64).wrapping_mul(0x100000001b3);
    }
    assert_eq!(sanitize_name(&too_long), format!("xrizer-{h:016x}"));
    assert_eq!(sanitize_name(""), "xrizer-cbf29ce484222325");
    assert_eq!(sanitize_name(&too_long), sanitize_name(&too_long));
    assert_ne!(sanitize_name(&too_long), sanitize_name(&"a".repeat(65)));
    assert_eq!(cleaned_name("/actions/set1/in/my action"), "my_action");
    assert_eq!(
        make_extra_action_key("/actions/set1", "/actions/set1/in/bool act", "_asfloat"),
        "/actions/set1/bool_act_asfloat"
    );
    assert_eq!(make_extra_action_key("/actions/set1", "/actions/set1/in/t", "_tgl"), "/actions/set1/t_tgl");
}

#[test]
fn localized_names() {
    assert_eq!(clip_localized_name("Jump"), "Jump");
    let long = "x".repeat(127);
    assert_eq!(clip_localized_name(&long), long);
    assert_eq!(clip_localized_name(&"x".repeat(128)), "x".repeat(31));
    // 30 characters of four bytes each fit the count but not the bytes.
    let wide = "𝄞".repeat(40);
    assert_eq!(clip_localized_name(&wide), "𝄞".repeat(31));
    let short_wide = "𝄞".repeat(31);
    assert_eq!(clip_localized_name(&short_wide), short_wide);
    let localization = vec![
        Localization { path: "/actions/Main/in/Jump".to_string(), name: "Jump high".to_string() },
        Localization { path: "/actions/main/in/jump".to_string(), name: "second".to_string() },
    ];
    assert_eq!(localized_name(&localization, "/actions/main/in/jump"), "Jump high");
    assert_eq!(localized_name(&localization, "/actions/main/in/run"), "/actions/main/in/run");
    assert_eq!(localized_name(&Vec::new(), ""), "");
}

#[test]
fn input_kinds_and_resolution() {
    assert_eq!(input_kind("/user/hand/left/input/a/click"), InputKind::Boolean);
    assert_eq!(input_kind("/user/hand/left/input/a/touch"), InputKind::Boolean);
    assert_eq!(input_kind("/user/hand/left/input/trigger/value"), InputKind::Analog);
    assert_eq!(input_kind("/user/hand/left/input/squeeze/force"), InputKind::Analog);
    assert_eq!(input_kind("/user/hand/left/input/thumbstick/x"), InputKind::Analog);
    assert_eq!(input_kind("/user/hand/left/input/thumbstick/y"), InputKind::Analog);
    assert_eq!(input_kind("/user/hand/left/input/thumbstick"), InputKind::TwoAxis);
    assert_eq!(input_kind("/user/hand/left/input/grip/pose"), InputKind::Pose);
    assert_eq!(input_kind("/user/hand/left/output/haptic"), InputKind::Haptic);
    assert_eq!(
        resolve(Profile::Touch, "/user/hand/left/input/grip/pull").unwrap(),
        "/user/hand/left/input/squeeze/value"
    );
    assert_eq!(resolve(Profile::Touch, "/user/hand/left/input/grip/touch"), None);
    assert_eq!(resolve(Profile::Touch, "/user/hand/left/input/a/click"), None);
    assert_eq!(
        resolve(Profile::Touch, "/user/hand/right/input/joystick").unwrap(),
        "/user/hand/right/input/thumbstick"
    );
    assert_eq!(resolve(Profile::ViveTracker, "/user/hand/left/input/a/click"), None);
    assert_eq!(ActionKind::from_type(ActionType::Vibration), ActionKind::Haptic);
    assert_eq!(ActionKind::from_type(ActionType::Vector1), ActionKind::Vector1);
}

#[test]
fn binding_classes() {
    let b = Some(InputKind::Boolean);
    let a = Some(InputKind::Analog);
    let t = Some(InputKind::TwoAxis);
    let c = |mode, input, action, target, stand_in, thresholds| {
        classify(mode, input, action, target, stand_in, thresholds)
    };
    // Clicks.
    assert_eq!(c(SourceMode::Button, SourceInput::Click, Bool, b, None, false), Plain);
    assert_eq!(c(SourceMode::Button, SourceInput::Click, Bool, a, None, false), Plain);
    assert_eq!(c(SourceMode::Button, SourceInput::Click, Bool, a, None, true), Threshold);
    assert_eq!(c(SourceMode::Button, SourceInput::Click, Bool, b, a, true), ClickFromPull);
    assert_eq!(c(SourceMode::Button, SourceInput::Click, Bool, b, a, false), Plain);
    assert_eq!(c(SourceMode::Trigger, SourceInput::Click, Bool, None, a, true), ClickFromPull);
    assert_eq!(c(SourceMode::Button, SourceInput::Click, Bool, None, None, true), Rejected);
    assert_eq!(c(SourceMode::Button, SourceInput::Click, Bool, t, None, true), Rejected);
    assert_eq!(c(SourceMode::Button, SourceInput::Click, Vector1, b, a, true), Plain);
    assert_eq!(c(SourceMode::Button, SourceInput::Click, Vector1, a, None, false), Plain);
    assert_eq!(c(SourceMode::Button, SourceInput::Click, Vector2, b, None, false), Rejected);
    assert_eq!(c(SourceMode::Button, SourceInput::Click, Haptic, b, None, false), Rejected);
    assert_eq!(c(SourceMode::Grab, SourceInput::Click, Bool, b, None, false), Rejected);
    assert_eq!(c(SourceMode::Other, SourceInput::Click, Bool, b, None, false), Rejected);
    // Toggles.
    assert_eq!(c(SourceMode::ToggleButton, SourceInput::Click, Bool, b, None, false), Toggle);
    assert_eq!(c(SourceMode::ToggleButton, SourceInput::Click, Bool, a, None, true), Toggle);
    assert_eq!(c(SourceMode::ToggleButton, SourceInput::Click, Vector1, b, None, false), Rejected);
    assert_eq!(c(SourceMode::ToggleButton, SourceInput::Click, Bool, None, a, false), Rejected);
    assert_eq!(c(SourceMode::ToggleButton, SourceInput::Touch, Bool, b, None, false), Rejected);
    // Touches.
    assert_eq!(c(SourceMode::Trackpad, SourceInput::Touch, Bool, b, None, false), Plain);
    assert_eq!(c(SourceMode::Trackpad, SourceInput::Touch, Vector1, b, None, false), Plain);
    assert_eq!(c(SourceMode::Button, SourceInput::Touch, Bool, None, a, false), TouchFromPull);
    assert_eq!(c(SourceMode::Button, SourceInput::Touch, Bool, a, a, false), Rejected);
    assert_eq!(c(SourceMode::Button, SourceInput::Touch, Vector1, None, a, false), Rejected);
    assert_eq!(c(SourceMode::Button, SourceInput::Touch, Bool, None, b, false), Rejected);
    // Pulls and forces.
    assert_eq!(c(SourceMode::Trigger, SourceInput::Pull, Vector1, a, None, false), Plain);
    assert_eq!(c(SourceMode::Trigger, SourceInput::Pull, Bool, a, None, false), Plain);
    assert_eq!(c(SourceMode::Trigger, SourceInput::Pull, Bool, a, None, true), Threshold);
    assert_eq!(c(SourceMode::Trigger, SourceInput::Pull, Vector1, b, None, false), Rejected);
    assert_eq!(c(SourceMode::Dpad, SourceInput::Pull, Vector1, a, None, false), Rejected);
    assert_eq!(c(SourceMode::Button, SourceInput::Force, Vector1, a, None, false), Plain);
    assert_eq!(c(SourceMode::Button, SourceInput::Force, Bool, a, None, true), Rejected);
    // Positions.
    assert_eq!(c(SourceMode::Joystick, SourceInput::Position, Vector2, t, None, false), Plain);
    assert_eq!(c(SourceMode::Trackpad, SourceInput::Position, Vector2, t, None, false), Plain);
    assert_eq!(c(SourceMode::Button, SourceInput::Position, Vector2, t, None, false), Rejected);
    assert_eq!(c(SourceMode::Joystick, SourceInput::Position, Vector1, t, None, false), Rejected);
    assert_eq!(c(SourceMode::Joystick, SourceInput::Position, Vector2, a, None, false), Rejected);
    // Grabs and dpads.
    assert_eq!(c(SourceMode::Grab, SourceInput::Grab, Bool, a, None, false), Grab);
    assert_eq!(c(SourceMode::Grab, SourceInput::Grab, Bool, None, a, false), Grab);
    assert_eq!(c(SourceMode::Grab, SourceInput::Grab, Bool, None, None, false), Rejected);
    assert_eq!(c(SourceMode::Grab, SourceInput::Grab, Vector1, a, a, false), Rejected);
    assert_eq!(c(SourceMode::Button, SourceInput::Grab, Bool, a, a, false), Rejected);
    assert_eq!(c(SourceMode::Dpad, SourceInput::Direction, Bool, t, None, false), Dpad);
    assert_eq!(c(SourceMode::Dpad, SourceInput::Direction, Bool, a, None, false), Rejected);
    assert_eq!(c(SourceMode::Dpad, SourceInput::Direction, Vector1, t, None, false), Rejected);
    assert_eq!(c(SourceMode::Joystick, SourceInput::Direction, Bool, t, None, false), Rejected);
}

#[test]
fn handle_table() {
    let mut table = HandleMap::new();
    assert_eq!(table.len(), 0);
    assert_eq!(table.find(&"a".to_string()), None);
    let a = table.intern("a".to_string()).unwrap();
    let b = table.intern("b".to_string()).unwrap();
    assert_ne!(a, 0);
    assert_ne!(a, b);
    assert_eq!(table.intern("a".to_string()), Some(a));
    assert_eq!(table.len(), 2);
    assert_eq!(table.find(&"b".to_string()), Some(b));
    assert_eq!(table.get(a).unwrap(), "a");
    assert_eq!(table.get(b).unwrap(), "b");
    assert!(table.contains(a));
    assert!(!table.contains(0));
    assert!(!table.contains(a + 1_000_000));
    assert_eq!(canonicalize(a), a);
    assert_eq!(canonicalize(a - 0x1_0000_0000), a);
    assert_eq!(canonicalize(0), 0x1_0000_0000);
    assert_eq!(canonicalize(u64::MAX), u64::MAX);
    assert_eq!(canonicalize(u64::MAX - 0x1_0000_0000), u64::MAX);
    assert!(table.contains(a - 0x1_0000_0000));
    let mut seen = vec![a, b];
    for i in 0..200 {
        let h = table.intern(format!("path{i}")).unwrap();
        assert!(!seen.contains(&h));
        assert_eq!(canonicalize(h), h);
        seen.push(h);
    }
    assert_eq!(table.len(), 202);
    assert_eq!(table.get(seen[101]).unwrap(), "path99");
}

#[test]
fn names_of_a_manifest() {
    assert_eq!(ActionType::from_name("boolean"), Some(ActionType::Boolean));
    assert_eq!(ActionType::from_name("Vector1"), Some(ActionType::Vector1));
    assert_eq!(ActionType::from_name("vector2"), Some(ActionType::Vector2));
    assert_eq!(ActionType::from_name("POSE"), Some(ActionType::Pose));
    assert_eq!(ActionType::from_name("skeleton"), Some(ActionType::Skeleton));
    assert_eq!(ActionType::from_name("vibration"), Some(ActionType::Vibration));
    assert_eq!(ActionType::from_name("quaternion"), None);
    assert_eq!(SourceMode::from_name("button"), SourceMode::Button);
    assert_eq!(SourceMode::from_name("Trigger"), SourceMode::Trigger);
    assert_eq!(SourceMode::from_name("trackpad"), SourceMode::Trackpad);
    assert_eq!(SourceMode::from_name("joystick"), SourceMode::Joystick);
    assert_eq!(SourceMode::from_name("dpad"), SourceMode::Dpad);
    assert_eq!(SourceMode::from_name("grab"), SourceMode::Grab);
    assert_eq!(SourceMode::from_name("toggle_button"), SourceMode::ToggleButton);
    assert_eq!(SourceMode::from_name("scroll"), SourceMode::Other);
    assert_eq!(DpadSubMode::from_name("click"), Some(DpadSubMode::Click));
    assert_eq!(DpadSubMode::from_name("touch"), Some(DpadSubMode::Touch));
    assert_eq!(DpadSubMode::from_name("Click"), None);
}
