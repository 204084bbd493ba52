//! Behavioural tests for the branch-selection policy.

use git_glimpse::{
    append_head_ref, append_last_tag, branch_format, current_branch_from_lines, resolve_base,
    stack_plan, PresetConfig,
};

fn strings(items: &[&str]) -> Vec<String> {
    items.iter().map(|s| s.to_string()).collect()
}

#[test]
fn base_flag_beats_config_and_default() {
    let r = resolve_base(Some("dev".to_string()), Some("trunk".to_string()));
    assert_eq!(r, "dev");
}

#[test]
fn base_config_beats_default() {
    let r = resolve_base(None, Some("trunk".to_string()));
    assert_eq!(r, "trunk");
}

#[test]
fn base_default_is_main() {
    let r = resolve_base(None, None);
    assert_eq!(r, "main");
}

#[test]
fn current_branch_from_one_line() {
    let r = current_branch_from_lines(strings(&["feature"]));
    assert_eq!(r, Some("feature".to_string()));
}

#[test]
fn current_branch_detached_is_none() {
    let r = current_branch_from_lines(Vec::new());
    assert_eq!(r, None);
}

#[test]
fn stack_lists_base_then_current() {
    let preset = PresetConfig {
        select_upstreams: false,
        select_pushes: true,
        select_last_tag: false,
    };
    let plan = stack_plan("main".to_string(), Some("feature".to_string()), preset);
    assert_eq!(plan.listing_args, strings(&["main", "feature"]));
    assert!(!plan.preset.select_upstreams);
    assert!(plan.preset.select_pushes);
    assert!(!plan.preset.select_last_tag);
    assert!(!plan.append_head);
}

#[test]
fn stack_on_base_does_not_duplicate_and_forces_upstreams() {
    let preset = PresetConfig {
        select_upstreams: false,
        select_pushes: false,
        select_last_tag: false,
    };
    let plan = stack_plan("main".to_string(), Some("main".to_string()), preset);
    assert_eq!(plan.listing_args, strings(&["main"]));
    assert!(plan.preset.select_upstreams);
    assert!(!plan.append_head);
}

#[test]
fn stack_detached_lists_base_and_appends_head_once() {
    let preset = PresetConfig {
        select_upstreams: true,
        select_pushes: false,
        select_last_tag: false,
    };
    let plan = stack_plan("main".to_string(), None, preset);
    assert_eq!(plan.listing_args, strings(&["main"]));
    assert!(plan.append_head);
    let mut refs = plan.listing_args;
    append_head_ref(&mut refs);
    assert_eq!(refs, strings(&["main", "HEAD"]));
    assert_eq!(refs.iter().filter(|r| r.as_str() == "HEAD").count(), 1);
}

#[test]
fn last_tag_is_appended_when_found() {
    let mut refs = strings(&["main"]);
    let warned = append_last_tag(&mut refs, strings(&["v1.2.3"]));
    assert!(!warned);
    assert_eq!(refs, strings(&["main", "v1.2.3"]));
}

#[test]
fn missing_last_tag_only_warns() {
    let mut refs = strings(&["main"]);
    let warned = append_last_tag(&mut refs, Vec::new());
    assert!(warned);
    assert_eq!(refs, strings(&["main"]));
}

#[test]
fn plain_listing_format() {
    assert_eq!(branch_format(false, false, false), "--format=%(refname:short)");
}

#[test]
fn upstream_toggle_appends_upstream_directive() {
    assert_eq!(
        branch_format(false, true, false),
        "--format=%(refname:short)%(if)%(upstream)%(then)\n%(upstream:short)%(end)"
    );
}

#[test]
fn push_toggle_appends_push_directive() {
    assert_eq!(
        branch_format(false, false, true),
        "--format=%(refname:short)%(if)%(push)%(then)\n%(push:short)%(end)"
    );
}

#[test]
fn detached_listing_format_guards_head_once() {
    let f = branch_format(true, true, true);
    assert_eq!(
        f,
        "--format=%(if)%(HEAD)%(then)HEAD%(else)%(refname:short)\
         %(if)%(upstream)%(then)\n%(upstream:short)%(end)\
         %(if)%(push)%(then)\n%(push:short)%(end)%(end)"
    );
    assert_eq!(f.matches("%(then)HEAD").count(), 1);
}

#[test]
fn detached_stack_with_tag_composes_in_order() {
    // Detached `HEAD`, a configured base, a tag in the repository: the final
    // reference list is the listing's output, then the tag, then `HEAD`.
    let base = git_glimpse::resolve_base(None, Some("trunk".to_string()));
    let preset = PresetConfig {
        select_upstreams: false,
        select_pushes: false,
        select_last_tag: true,
    };
    let plan = stack_plan(base, None, preset);
    assert_eq!(plan.listing_args, strings(&["trunk"]));
    assert!(plan.append_head);
    let mut refs = strings(&["trunk"]);
    let warned = append_last_tag(&mut refs, strings(&["v2.0"]));
    assert!(!warned);
    append_head_ref(&mut refs);
    assert_eq!(refs, strings(&["trunk", "v2.0", "HEAD"]));
    let merge_base = "f00ba4".to_string();
    let args = git_glimpse::log_args(None, &merge_base, &refs, &Vec::new());
    assert_eq!(
        args,
        strings(&[
            "log",
            "--graph",
            "--decorate",
            "--ancestry-path",
            "^f00ba4^@",
            "trunk",
            "v2.0",
            "HEAD",
            "--",
        ])
    );
}
