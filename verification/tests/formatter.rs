use novelsaga::article::Article;
use novelsaga::config::fileformat::NovelSagaFileFormat;
use novelsaga::config::formatter::FormatConfig;
use novelsaga::config::workspace::WorkspaceConfig;
use novelsaga::config::{NovelSagaConfig, OverridableConfig, RootConfig};
use novelsaga::library::formatter::{format_text, formatter, layout};
use novelsaga::state::init::{InitError, Initializer};

#[test]
fn formatter_test_format_text() {
    let config = FormatConfig::default();
    let input = "你好world\n\n这是test";
    let article = Article::new(input.to_string());
    let result = format_text(&article, &config);
    let result_str = result.content_ref();
    assert!(result_str.contains("你好 world"));
    assert!(result_str.contains("这是 test"));
}

#[test]
fn format_text_is_exact() {
    let config = FormatConfig::default();
    assert_eq!(formatter(&config, "你好world\n\n这是test"), "    你好 world\n\n    这是 test");
    assert_eq!(formatter(&config, "one\ntwo\r\n  three  \n\n\n"), "    one\n\n    two\n\n    three");
    assert_eq!(formatter(&config, ""), "");
    assert_eq!(formatter(&config, " \n\t\n"), "");
    assert_eq!(formatter(&config, "only"), "    only");
    assert_eq!(formatter(&FormatConfig::with_options(0, 0), "a\n\nb\nc"), "a\nb\nc");
    assert_eq!(formatter(&FormatConfig::with_options(2, 3), "a\nb"), "  a\n\n\n\n  b");
}

#[test]
fn article_accessors() {
    let article = Article::new("你好".to_string());
    assert_eq!(article.content_ref(), "你好");
    assert_eq!(article.content(), "你好");
    assert_eq!(article.len(), 6);
    assert!(!article.is_empty());
    assert!(Article::new(String::new()).is_empty());
    assert_eq!(Article::new(String::new()).len(), 0);
    let formatted = Article::new("a\nb".to_string()).format(&FormatConfig::with_options(1, 0));
    assert_eq!(formatted.content_ref(), " a\n b");
}

#[test]
fn format_config_values() {
    let config = FormatConfig::new();
    assert_eq!(config.indent_spaces, 4);
    assert_eq!(config.blank_lines_between_paragraphs, 1);
    assert_eq!(FormatConfig::default(), config);
    let config = FormatConfig::with_options(2, 3);
    assert_eq!(config.indent_spaces, 2);
    assert_eq!(config.blank_lines_between_paragraphs, 3);
}

#[test]
fn configs_and_their_defaults() {
    let workspace = WorkspaceConfig::default();
    assert_eq!(workspace.novelsaga_dir, ".novelsaga");
    assert_eq!(workspace.cache_dir, ".novelsaga/cache");
    assert!(workspace.respect_git);

    let root = RootConfig { workspace: Some(workspace) };
    let config = root.to_novelsaga_config();
    assert_eq!(config.root.unwrap().workspace.unwrap().cache_dir, ".novelsaga/cache");
    assert_eq!(config.overridable.fmt, FormatConfig::default());
    assert!(RootConfig::default().workspace.is_none());
    assert!(RootConfig::default().to_novelsaga_config().root.unwrap().workspace.is_none());

    let config = NovelSagaConfig::from_root_and_override(None, None);
    assert!(config.root.is_none());
    assert_eq!(config.overridable.fmt, FormatConfig::default());
    let overridable = OverridableConfig { fmt: FormatConfig::with_options(8, 0) };
    let config = NovelSagaConfig::from_root_and_override(Some(RootConfig::default()), Some(overridable));
    assert!(config.root.is_some());
    assert_eq!(config.overridable.fmt.indent_spaces, 8);
    assert!(NovelSagaConfig::default().root.is_none());
    assert_eq!(OverridableConfig::default().fmt, FormatConfig::default());
}

#[test]
fn extensions_of_the_file_formats() {
    assert_eq!(NovelSagaFileFormat::Markdown.get_extensions(), vec!["md", "markdown"]);
    assert_eq!(NovelSagaFileFormat::JavaScript.get_extensions(), vec!["js", "cjs", "mjs"]);
    assert_eq!(NovelSagaFileFormat::TypeScript.get_extensions(), vec!["ts", "cts", "mts"]);
}

#[test]
fn a_state_is_set_up_once() {
    let mut holder: Initializer<u32> = Initializer::new();
    assert!(!holder.is_initialized());
    assert_eq!(holder.get(), Err(InitError::Uninitialized));
    assert_eq!(holder.init(7), Ok(&7));
    assert!(holder.is_initialized());
    assert_eq!(holder.init(8), Err(InitError::AlreadyInitialized));
    assert_eq!(holder.get(), Ok(&7));
}

#[test]
fn layout_of_paragraphs() {
    let run = |text: &str, indent: usize, blank: usize| -> String {
        let chars: Vec<char> = text.chars().collect();
        layout(&chars, &FormatConfig::with_options(indent, blank)).into_iter().collect()
    };
    assert_eq!(run("a\nb", 1, 1), " a\n\n b");
    assert_eq!(run("\n\n a \n\n", 2, 0), "  a");
    assert_eq!(run("a\r\nb\r\n", 0, 2), "a\n\n\nb");
    assert_eq!(run("", 3, 3), "");
    assert_eq!(run("\n", 3, 3), "");
    assert_eq!(run("x y", 0, 0), "x y");
}
