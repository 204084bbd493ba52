//! Branch-selection policy and argument-list construction for a family of
//! git commit-graph viewers.
//!
//! The library decides *what* to ask git for: which references to show for a
//! given run mode (stack / locals / explicit list), how to resolve the base
//! branch, which `--format` string to hand to `git branch --list`, and the
//! exact argument vector for each git invocation. Spawning the processes and
//! reading their output is left to the binary; the library consumes plain
//! values (exit codes, output lines) and produces plain values (argument
//! lists, reference lists, errors).

mod error;
mod laws;
mod renderer;
mod selector;
mod text;

pub use error::Error;
pub use laws::{
    lemma_append_counts_once, lemma_head_injected_once, lemma_stack_base_not_duplicated,
    lemma_upstream_inclusion_appends_directive,
};
pub use renderer::{
    ancestry_bound_spec, branch_list_args, choose_format, config_value, last_tag_args, log_args,
    log_args_spec, merge_base_args, merge_base_from_lines, show_current_args,
};
pub use selector::{
    append_head_ref, append_last_tag, branch_format, branch_format_spec, count_of,
    current_branch_from_lines, head_guard_close_spec, head_guard_spec, is_name, push_clause_spec,
    refname_spec, resolve_base, stack_listing_spec, stack_plan, stack_upstreams_spec,
    upstream_clause_spec, PresetConfig, StackPlan,
};
pub use text::{
    is_whitespace_spec, split_nl_spec, split_trimmed_lines, stdout_lines_spec, trim_all_spec,
    trim_end_spec, trim_spec, trim_start_spec, trimmed,
};
