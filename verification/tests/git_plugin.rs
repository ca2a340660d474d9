use smol_vergen::git::{
    branch, commit, commit_author, commit_message, commit_short, commit_timestamp, parse_author,
    simplify, trim_trailing_newlines, CLIError, FailedAccess, GitAccessOrFailed, GitAuthor,
    GitFacts, GitLoadError, GitPlugin, GitPluginBuilder, InnerGitPlugin, RepoSearch,
};
use smol_vergen::plugin_items::{save_to_map, SmolVergenPluginItems};
use smol_vergen::scalar::ScalarValue;
use smol_vergen::timestamp::Timestamp;

fn facts_all_ok() -> GitFacts {
    GitFacts {
        branch: Ok(Some("main".to_string())),
        commit: Ok(Some("0123abcd".to_string())),
        commit_short: Ok(Some("0123".to_string())),
        commit_author: Ok(Some(GitAuthor::new(
            "John Doe".to_string(),
            "john@example.com".to_string(),
        ))),
        commit_message: Ok(Some("initial".to_string())),
        commit_timestamp: Ok(Timestamp::from_fields(2021, 3, 14, 15, 9, 26, 60)),
    }
}

#[test]
fn fallback_values_are_placeholders() {
    assert_eq!(branch().unwrap().as_str(), "Unknown");
    assert_eq!(commit().unwrap().as_str(), "Unknown");
    assert_eq!(commit_short().unwrap().as_str(), "Unknown");
    assert_eq!(commit_message().unwrap().as_str(), "Unknown");
    let author = commit_author().unwrap();
    assert_eq!(author.name.as_str(), "Unknown");
    assert_eq!(author.email.as_str(), "Unknown");
    assert_eq!(commit_timestamp().unwrap(), Timestamp::unix_epoch());
}

#[test]
fn failed_access_answers_every_query() {
    let a = FailedAccess::load();
    assert_eq!(a.get_branch().unwrap().as_str(), "Unknown");
    assert_eq!(a.get_commit().unwrap().as_str(), "Unknown");
    assert_eq!(a.get_commit_short().unwrap().as_str(), "Unknown");
    assert_eq!(a.get_commit_message().unwrap().as_str(), "Unknown");
    assert_eq!(a.get_commit_author().unwrap().name.as_str(), "Unknown");
    assert_eq!(a.get_commit_timestamp().unwrap(), Timestamp::unix_epoch());
}

#[test]
fn access_dispatch_passes_backend_values_through() {
    let a = GitAccessOrFailed::Success(facts_all_ok());
    assert_eq!(a.get_branch().unwrap().unwrap().as_str(), "main");
    assert_eq!(a.get_commit().unwrap().unwrap().as_str(), "0123abcd");
    assert_eq!(a.get_commit_short().unwrap().unwrap().as_str(), "0123");
    assert_eq!(a.get_commit_message().unwrap().unwrap().as_str(), "initial");
    let author = a.get_commit_author().unwrap().unwrap();
    assert_eq!(author.name.as_str(), "John Doe");
    assert_eq!(author.email.as_str(), "john@example.com");
}

#[test]
fn access_dispatch_uses_fallback_when_failed() {
    let a = GitAccessOrFailed::Failed(FailedAccess);
    assert_eq!(a.get_branch().unwrap().unwrap().as_str(), "Unknown");
    assert_eq!(a.get_commit_timestamp().unwrap().unwrap(), Timestamp::unix_epoch());
}

#[test]
fn simplify_prefers_the_value() {
    assert_eq!(
        simplify(Ok(Some(3u32)), Some(7)).unwrap(),
        3
    );
    assert_eq!(simplify(Ok(None), Some(7u32)).unwrap(), 7);
    assert_eq!(
        simplify(Err(CLIError::GitCommandNotFound), Some(7u32)).unwrap(),
        7
    );
    assert!(simplify(Ok(None), None::<u32>).is_none());
}

#[test]
fn parse_author_splits_name_and_email() {
    let a = parse_author("John Doe <john@example.com>\n").unwrap();
    assert_eq!(a.name.as_str(), "John Doe");
    assert_eq!(a.email.as_str(), "john@example.com");
}

#[test]
fn parse_author_without_separator_fails() {
    assert!(parse_author("no separator here").is_none());
    assert!(parse_author("").is_none());
}

#[test]
fn parse_author_strips_only_the_exact_tail_pair() {
    let a = parse_author("Team <dev@example.com>").unwrap();
    assert_eq!(a.name.as_str(), "Team");
    assert_eq!(a.email.as_str(), "dev@example.com>");
}

#[test]
fn trim_removes_only_trailing_newlines() {
    assert_eq!(trim_trailing_newlines("main\n").as_str(), "main");
    assert_eq!(trim_trailing_newlines("main\n\n").as_str(), "main");
    assert_eq!(trim_trailing_newlines("main").as_str(), "main");
    assert_eq!(trim_trailing_newlines("a\nb\n").as_str(), "a\nb");
    assert_eq!(trim_trailing_newlines("\n").as_str(), "");
}

#[test]
fn builder_applies_defaults() {
    let plugin = GitPluginBuilder::default().build();
    assert!(!plugin.check_parents);
    assert!(plugin.provide_defaults_on_error);
}

#[test]
fn builder_keeps_choices() {
    let plugin = GitPluginBuilder::default()
        .check_parents(true)
        .provide_defaults_on_error(false)
        .build();
    assert!(plugin.check_parents);
    assert!(!plugin.provide_defaults_on_error);
}

#[test]
fn search_directive_cases() {
    let stay = GitPlugin::default();
    assert_eq!(stay.search_directive(true), RepoSearch::UseHere);
    assert_eq!(stay.search_directive(false), RepoSearch::GiveUp);
    let walk = GitPluginBuilder::default().check_parents(true).build();
    assert_eq!(walk.search_directive(false), RepoSearch::SearchParents);
}

#[test]
fn resolve_load_cases() {
    let lenient = GitPlugin::default();
    let strict = GitPluginBuilder::default()
        .provide_defaults_on_error(false)
        .build();
    assert!(matches!(
        lenient.resolve_load(Some(Ok(facts_all_ok()))),
        Ok(GitAccessOrFailed::Success(_))
    ));
    assert!(matches!(
        lenient.resolve_load(Some(Err(CLIError::GitCommandNotFound))),
        Ok(GitAccessOrFailed::Failed(_))
    ));
    assert!(matches!(
        lenient.resolve_load(None),
        Ok(GitAccessOrFailed::Failed(_))
    ));
    assert!(matches!(
        strict.resolve_load(Some(Err(CLIError::GitCommandNotFound))),
        Err(GitLoadError::Access(CLIError::GitCommandNotFound))
    ));
    assert!(matches!(strict.resolve_load(None), Err(GitLoadError::NoRepository)));
}

#[test]
fn lenient_run_adds_all_items() {
    let plugin = InnerGitPlugin {
        git_access: GitAccessOrFailed::Failed(FailedAccess),
        provide_defaults_on_error: true,
    };
    let mut items = SmolVergenPluginItems::new();
    assert!(plugin.run(&mut items).is_ok());
    let names: Vec<&str> = items.items.iter().map(|p| p.0.as_str()).collect();
    assert_eq!(
        names,
        vec!["BRANCH", "COMMIT", "COMMIT_SHORT", "COMMIT_MESSAGE", "COMMIT_TIMESTAMP"]
    );
    match &items.items[0].1 {
        ScalarValue::Text(t) => assert_eq!(t.as_str(), "Unknown"),
        _ => panic!("expected text"),
    }
    match &items.items[4].1 {
        ScalarValue::Timestamp(t) => assert_eq!(*t, Timestamp::unix_epoch()),
        _ => panic!("expected timestamp"),
    }
    assert_eq!(items.complex_items.len(), 1);
    assert_eq!(items.complex_items[0].0.as_str(), "COMMIT_AUTHOR");
}

#[test]
fn strict_run_stops_at_the_first_failure() {
    let mut facts = facts_all_ok();
    facts.commit_short = Err(CLIError::UTF8Error);
    let plugin = InnerGitPlugin {
        git_access: GitAccessOrFailed::Success(facts),
        provide_defaults_on_error: false,
    };
    let mut items = SmolVergenPluginItems::new();
    let result = plugin.run(&mut items);
    assert!(matches!(result, Err(CLIError::UTF8Error)));
}

#[test]
fn strict_run_keeps_items_added_before_the_failure() {
    let mut facts = facts_all_ok();
    facts.commit_message = Err(CLIError::GitCommandNotFound);
    let plugin = InnerGitPlugin {
        git_access: GitAccessOrFailed::Success(facts),
        provide_defaults_on_error: false,
    };
    let mut items = SmolVergenPluginItems::new();
    let result = plugin.run(&mut items);
    assert!(matches!(result, Err(CLIError::GitCommandNotFound)));
    let names: Vec<&str> = items.items.iter().map(|p| p.0.as_str()).collect();
    assert_eq!(names, vec!["BRANCH", "COMMIT", "COMMIT_SHORT"]);
    assert_eq!(items.complex_items.len(), 1);
    assert_eq!(items.complex_items[0].0.as_str(), "COMMIT_AUTHOR");
}

#[test]
fn strict_run_skips_absent_values() {
    let mut facts = facts_all_ok();
    facts.branch = Ok(None);
    let plugin = InnerGitPlugin {
        git_access: GitAccessOrFailed::Success(facts),
        provide_defaults_on_error: false,
    };
    let mut items = SmolVergenPluginItems::new();
    assert!(plugin.run(&mut items).is_ok());
    let names: Vec<&str> = items.items.iter().map(|p| p.0.as_str()).collect();
    assert_eq!(
        names,
        vec!["COMMIT", "COMMIT_SHORT", "COMMIT_MESSAGE", "COMMIT_TIMESTAMP"]
    );
}

#[test]
fn plugin_items_adders() {
    let mut items = SmolVergenPluginItems::new();
    items.add_item("one".to_string(), ScalarValue::Integer(1));
    items.add_optional_item("two".to_string(), Some(ScalarValue::Boolean(true)));
    items.add_optional_item("skipped".to_string(), None);
    assert_eq!(items.items.len(), 2);
    items.add_optional_complex_item("skipped".to_string(), None);
    assert_eq!(items.complex_items.len(), 0);
}

#[test]
fn save_to_map_composes_and_flattens() {
    let mut items = SmolVergenPluginItems::new();
    items.add_item(
        "BRANCH".to_string(),
        ScalarValue::Text("main".to_string()),
    );
    let author = GitAuthor::new("John Doe".to_string(), "john@example.com".to_string());
    items.add_complex_item("COMMIT_AUTHOR".to_string(), author.to_structured());
    let map = save_to_map("SMOL_VERGEN_GIT", &items).unwrap();
    assert_eq!(map.len(), 3);
    assert_eq!(map.get("SMOL_VERGEN_GIT_BRANCH").unwrap().as_str(), "main");
    assert_eq!(
        map.get("SMOL_VERGEN_GIT_COMMIT_AUTHOR_NAME").unwrap().as_str(),
        "John Doe"
    );
    assert_eq!(
        map.get("SMOL_VERGEN_GIT_COMMIT_AUTHOR_EMAIL").unwrap().as_str(),
        "john@example.com"
    );
}

#[test]
fn save_to_map_reports_collisions() {
    let mut items = SmolVergenPluginItems::new();
    items.add_item("some-item".to_string(), ScalarValue::Integer(1));
    items.add_item("SOME_ITEM".to_string(), ScalarValue::Integer(2));
    let result = save_to_map("BASE", &items);
    assert!(result.is_err());
}

#[test]
fn error_messages() {
    assert_eq!(
        CLIError::GitCommandNotFound.message().as_str(),
        "Git command not found"
    );
    assert_eq!(CLIError::UTF8Error.message().as_str(), "UTF8 error");
    assert_eq!(
        GitLoadError::NoRepository.message().as_str(),
        "No git repository found"
    );
}
