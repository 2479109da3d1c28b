use libvorpal::{
    concatenate_query_items, decimal_string, join_with, strip_markup, text_content, CatalogError, Creator, ModelFile,
    ModelVersion, QueryItem, Stats,
};

fn file(id: u32, name: &str) -> ModelFile {
    ModelFile {
        id,
        size_kb: "2082642.3125".to_string(),
        name: name.to_string(),
        download_url: format!("https://civitai.com/api/download/models/{}", id),
    }
}

fn version(id: u32, name: &str, files: Vec<ModelFile>) -> ModelVersion {
    ModelVersion {
        version_id: id,
        parent_item_id: 7,
        name: name.to_string(),
        trained_words: vec!["glitter".to_string(), "red".to_string()],
        base_model: Some("SDXL 1.0".to_string()),
        base_model_type: None,
        files,
    }
}

fn item(description: Option<&str>, versions: Vec<ModelVersion>) -> QueryItem {
    QueryItem {
        name: "Red Glitter".to_string(),
        id: 235002,
        description: description.map(|d| d.to_string()),
        creator: Creator { username: "someone".to_string() },
        tags: vec!["style".to_string(), "glitter".to_string(), "style".to_string()],
        stats: Stats {
            download_count: 10,
            favorite_count: 2,
            comment_count: 1,
            rating_count: 3,
            rating: "4.5".to_string(),
            tipped_amount_count: 0,
        },
        model_versions: versions,
    }
}

fn sample() -> QueryItem {
    item(
        Some("<p>Shiny <b>red</b> glitter</p>"),
        vec![
            version(11, "v2", vec![file(101, "red_v2.safetensors"), file(102, "red_v2.ckpt")]),
            version(10, "v1", vec![file(100, "red_v1.safetensors")]),
        ],
    )
}

#[test]
fn canonical_version_is_first() {
    let it = sample();
    assert_eq!(it.get_first().unwrap().version_id, 11);
    assert_eq!(it.get_first().unwrap().parent_item_id, 7);
}

#[test]
fn canonical_file_is_first_of_first_version() {
    let it = sample();
    assert_eq!(it.get_file().unwrap().id, 101);
    assert_eq!(it.get_first().unwrap().get_latest_file().unwrap().name, "red_v2.safetensors");
}

#[test]
fn empty_versions_is_empty_collection() {
    let it = item(None, vec![]);
    assert_eq!(it.get_first().err(), Some(CatalogError::EmptyCollection));
    assert_eq!(it.get_file().err(), Some(CatalogError::EmptyCollection));
    assert_eq!(it.get_download_url(), Err(CatalogError::EmptyCollection));
    assert_eq!(it.get_download_id(), Err(CatalogError::EmptyCollection));
    assert_eq!(it.get_model_filename(), Err(CatalogError::EmptyCollection));
    assert_eq!(it.generate_model_report(), Err(CatalogError::EmptyCollection));
    assert_eq!(it.make_cli_query_display(true), Err(CatalogError::EmptyCollection));
}

#[test]
fn empty_files_is_empty_collection() {
    let it = item(None, vec![version(5, "v", vec![])]);
    assert_eq!(it.get_first().unwrap().get_latest_file().err(), Some(CatalogError::EmptyCollection));
    assert_eq!(it.get_download_url(), Err(CatalogError::EmptyCollection));
    assert_eq!(it.get_download_id(), Ok("5".to_string()));
}

#[test]
fn accessors_of_canonical_file() {
    let it = sample();
    assert_eq!(it.get_download_url(), Ok("https://civitai.com/api/download/models/101".to_string()));
    assert_eq!(it.get_download_id(), Ok("11".to_string()));
    assert_eq!(it.get_model_filename(), Ok("red_v2.safetensors".to_string()));
    assert_eq!(it.get_id(), "235002");
    assert_eq!(it.get_creator_name(), "someone");
    assert_eq!(it.get_model_versions().len(), 2);
}

#[test]
fn tags_and_trained_words_joined_in_order() {
    let it = sample();
    assert_eq!(it.get_tags(), "style, glitter, style");
    assert_eq!(it.get_first().unwrap().get_trained_words(), "glitter, red");
    let none = ModelVersion { trained_words: vec![], ..version(1, "x", vec![]) };
    assert_eq!(none.get_trained_words(), "");
}

#[test]
fn join_with_separator() {
    assert_eq!(join_with(&vec![], ", "), "");
    assert_eq!(join_with(&vec!["a".to_string()], ", "), "a");
    assert_eq!(join_with(&vec!["a".to_string(), "b".to_string(), "c".to_string()], "/"), "a/b/c");
}

#[test]
fn decimal_forms() {
    assert_eq!(decimal_string(0), "0");
    assert_eq!(decimal_string(20086), "20086");
    assert_eq!(decimal_string(u32::MAX as u64), "4294967295");
    assert_eq!(decimal_string(u64::MAX), "18446744073709551615");
}

#[test]
fn description_without_markup() {
    assert_eq!(sample().get_description(), "Shiny red glitter");
}

#[test]
fn missing_description_placeholder() {
    assert_eq!(item(None, vec![]).get_description(), "<No description given>");
}

#[test]
fn nested_tags_give_text_in_document_order() {
    let raw = "<div>one <span>two <i>three</i></span> four<ul><li>five</li></ul></div><p>six</p>";
    assert_eq!(strip_markup(raw), "one two three fourfivesix");
}

#[test]
fn malformed_markup_gives_best_effort_text() {
    assert_eq!(strip_markup("<p>open <b>never closed"), "open never closed");
    assert_eq!(strip_markup("plain &amp; simple"), "plain & simple");
    assert_eq!(strip_markup("<br><img src=x>"), "");
    assert_eq!(strip_markup(""), "");
}

#[test]
fn text_content_skips_other_nodes() {
    let nodes = vec![None, Some("a".to_string()), None, Some("bc".to_string())];
    assert_eq!(text_content(&nodes), "abc");
    assert_eq!(text_content(&vec![None, None]), "");
}

#[test]
fn short_description_kept_when_short() {
    let it = sample();
    assert_eq!(it.get_short_description(17, "..."), "Shiny red glitter");
    assert_eq!(it.get_short_description(100, "..."), "Shiny red glitter");
}

#[test]
fn short_description_cut_when_long() {
    let it = sample();
    assert_eq!(it.get_short_description(5, "..."), "Shiny...");
    // byte length decides: nine bytes, three clusters
    let cjk = item(Some("魑魅魍"), vec![]);
    assert_eq!(cjk.get_short_description(8, "!"), "魑魅魍!");
    assert_eq!(cjk.get_short_description(9, "!"), "魑魅魍");
}

#[test]
fn report_lines_in_fixed_order() {
    let report = sample().generate_model_report().unwrap();
    assert_eq!(
        report,
        vec![
            "Model Name/Version: v2".to_string(),
            "Trained Words: glitter, red".to_string(),
            "Filename: red_v2.safetensors".to_string(),
            "Url: https://civitai.com/api/download/models/101".to_string(),
            "File Id: 101".to_string(),
            "File Size (KB): 2082642.3125".to_string(),
        ]
    );
}

#[test]
fn report_stable_across_calls() {
    let a = sample();
    let mut b = sample();
    b.name = "another".to_string();
    b.description = None;
    b.tags = vec![];
    b.model_versions.truncate(1);
    assert_eq!(a.generate_model_report(), a.generate_model_report());
    assert_eq!(a.generate_model_report(), b.generate_model_report());
}

#[test]
fn query_display_lines() {
    let it = sample();
    let expected = "    Model: red_v2.safetensors\n    Id: 235002\n    Size (KB): 2082642.3125\n    Creator: someone\n    Tags: style, glitter, style\n    Desc: Shiny red glitter\n\n";
    assert_eq!(it.make_cli_query_display(true), Ok(expected.to_string()));
    let long = item(Some(&"x".repeat(150)), sample().model_versions);
    let shown = long.make_cli_query_display(false).unwrap();
    assert!(shown.contains(&format!("    Desc: {}...\n", "x".repeat(100))));
}

#[test]
fn listing_numbers_count_down() {
    let a = sample();
    let mut b = sample();
    b.id = 9;
    let items = vec![a.clone(), b.clone()];
    let expected = format!(
        "\n[2]=========\n{}\n[1]=========\n{}",
        a.make_cli_query_display(false).unwrap(),
        b.make_cli_query_display(false).unwrap()
    );
    assert_eq!(concatenate_query_items(&items, false), Ok(expected));
    assert_eq!(concatenate_query_items(&vec![], true), Ok(String::new()));
}

#[test]
fn listing_fails_on_item_without_file() {
    let items = vec![sample(), item(None, vec![])];
    assert_eq!(concatenate_query_items(&items, true), Err(CatalogError::EmptyCollection));
}
