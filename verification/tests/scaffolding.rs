use manatsu::error::Error;
use manatsu::registry;
use manatsu::scaffold::component;
use manatsu::scaffold::composable;

#[test]
fn composable_plan_renders_both_files() {
    let plan = composable::plan("useManatsu", false).unwrap();
    assert_eq!(plan.unit, "useManatsu");
    assert_eq!(plan.dir, "useManatsu");
    assert_eq!(plan.files.len(), 2);
    assert_eq!(plan.files[0].name, "index.ts");
    assert_eq!(
        plan.files[0].content,
        "export function useManatsu() { /* TODO */ }"
    );
    assert_eq!(plan.files[1].name, "index.test.ts");
    assert_eq!(
        plan.files[1].content,
        "import { describe, it } from 'vitest';\nimport { useManatsu } from '.';\n\ndescribe('useManatsu', () => { it.todo('todo'); });"
    );
    assert_eq!(plan.index_entry, "export * from './useManatsu';\n");
    assert_eq!(plan.format_glob, "**/composables/src/useManatsu/**/*.ts");
    assert_eq!(plan.lint_extra, vec!["**/composables/src/index.ts"]);
}

#[test]
fn component_plan_renders_all_four_files() {
    let plan = component::plan("button", "Button", false).unwrap();
    assert_eq!(plan.unit, "Button");
    assert_eq!(plan.dir, "button");
    assert_eq!(plan.files.len(), 4);
    assert_eq!(plan.files[0].name, "index.ts");
    assert_eq!(
        plan.files[0].content,
        "export { default as MButton } from './MButton.vue';\nexport type * from './types';"
    );
    assert_eq!(plan.files[1].name, "types.ts");
    assert_eq!(plan.files[1].content, "export interface ButtonProps {}");
    assert_eq!(plan.files[2].name, "MButton.vue");
    assert_eq!(
        plan.files[2].content,
        "<script setup lang=\"ts\">\nimport type { ButtonProps } from './types';\n\ndefineProps<ButtonProps>();\n</script>\n\n<template>\n<div class=\"m-button\"></div>\n</template>\n\n<style scoped lang=\"scss\">\n.m-button {}\n</style>"
    );
    assert_eq!(plan.files[3].name, "MButton.test.ts");
    assert_eq!(
        plan.files[3].content,
        "import { afterEach, describe, it } from 'vitest';\nimport { enableAutoUnmount } from '@vue/test-utils';\nimport MButton from './MButton.vue';\n\nenableAutoUnmount(afterEach);\n\ndescribe('button', () => { it.todo('todo'); });"
    );
    assert_eq!(plan.index_entry, "export * from './button';\n");
    assert_eq!(plan.format_glob, "**/components/src/button/**/*.{ts,vue}");
    assert_eq!(
        plan.lint_extra,
        vec![
            "--rule",
            "@typescript-eslint/no-empty-interface: off",
            "**/components/src/index.ts"
        ]
    );
}

#[test]
fn scaffolding_twice_is_refused_and_writes_nothing() {
    // First scaffold: the directory does not exist yet and the plan is
    // produced; second scaffold of the same name: the directory now
    // exists, the plan is refused, and no file content is rendered, so
    // the filesystem state stays exactly what the first scaffold wrote.
    let first = composable::plan("useManatsu", false);
    assert!(first.is_ok());
    let second = composable::plan("useManatsu", true);
    assert_eq!(second.err().unwrap(), Error::AlreadyExists);

    let first = component::plan("button", "Button", false);
    assert!(first.is_ok());
    let second = component::plan("button", "Button", true);
    assert_eq!(second.err().unwrap(), Error::AlreadyExists);
}

#[test]
fn append_export_adds_exactly_one_line() {
    let prior = "export * from './useData';\nexport * from './useOther';\n";
    let after = registry::append_export(prior, "useManatsu");
    assert_eq!(
        after,
        "export * from './useData';\nexport * from './useOther';\nexport * from './useManatsu';\n"
    );
    assert!(after.starts_with(prior));
    assert_eq!(&after[prior.len()..], "export * from './useManatsu';\n");
}

#[test]
fn append_export_on_empty_index() {
    let after = registry::append_export("", "button");
    assert_eq!(after, "export * from './button';\n");
}

#[test]
fn export_entry_references_projected_name() {
    assert_eq!(
        registry::export_entry("useManatsu"),
        "export * from './useManatsu';\n"
    );
}
