use linter::config::{Check, Config, Lint};
use linter::filesystem::{extension, path, resolve_file_property, FileData, FsVertex};
use linter::hacker_news as hn;
use linter::lint_data::ConfigError;
use linter::openapi;
use linter::plugin_config::{CliPluginConfig, PluginData, PluginLocation};
use linter::value::{Json, Value};

fn config_lint(terraform: Option<&str>, api: Option<&str>) -> Lint {
    Lint {
        name: String::from("test"),
        terraform: terraform.map(String::from),
        api: api.map(String::from),
        error: String::from("test"),
        tf_args: Vec::new(),
        oa_args: Vec::new(),
    }
}

#[test]
fn test_validate() {
    let config = Config { lints: vec![config_lint(Some("."), None)] };
    assert!(config.validate().is_ok());
}

#[test]
fn test_validate_no_terraform_or_api() {
    let config = Config { lints: vec![config_lint(None, None)] };
    assert!(config.validate().is_err());
}

#[test]
fn test_has_api_lints() {
    let config = Config { lints: vec![config_lint(None, Some("."))] };
    assert!(config.has_api_lints());
}

#[test]
fn test_has_no_api_lints() {
    let config = Config { lints: vec![config_lint(Some("."), None)] };
    assert!(!config.has_api_lints());
}

#[test]
fn test_config_error_messages() {
    let config = Config { lints: vec![config_lint(None, None)] };
    assert_eq!(config.validate().unwrap_err(), "Lint config is not valid");
    let lint = config_lint(None, None);
    assert_eq!(
        lint.validate().unwrap_err(),
        "Lint test has no terraform or api query"
    );
    assert!(matches!(Check::IsEmpty, Check::IsEmpty));
}

#[test]
fn test_plugin_data_resolution() {
    let config = CliPluginConfig {
        path: Some(String::from("plugin.wasm")),
        url: None,
        directory: None,
        lints_paths: Some(vec![String::from("lints.yaml")]),
        urls: None,
    };
    let data = PluginData::from_cli_plugin_config(config, String::from("/work")).unwrap();
    assert!(matches!(&data.plugin, PluginLocation::Path(p) if p == "plugin.wasm"));
    assert_eq!(data.directory, "/work");
    assert_eq!(data.lints_paths, vec![String::from("lints.yaml")]);
    assert!(data.urls.is_empty());

    let empty = CliPluginConfig {
        path: None,
        url: None,
        directory: None,
        lints_paths: None,
        urls: None,
    };
    assert!(matches!(
        PluginData::from_cli_plugin_config(empty, String::from("/work")),
        Err(ConfigError::NoPluginSource)
    ));
}

#[test]
fn test_file_hash_property_is_the_content_digest() {
    let vertex = FsVertex::File(String::from("notes/hello.txt"));
    let data = FileData { bytes: b"hello".to_vec(), size: 5 };
    let hash = resolve_file_property(&vertex, "Hash", &data);
    assert!(matches!(
        hash,
        Value::Str(h) if h == "2cf24dba5fb0a30e26e83b2ac5b9e29e1b161e5c1fa7425e73043362938b9824"
    ));
    let size = resolve_file_property(&vertex, "size", &data);
    assert!(matches!(size, Value::Uint64(5)));
    let ext = resolve_file_property(&vertex, "extension", &data);
    assert!(matches!(ext, Value::Str(e) if e == "txt"));
}

#[test]
fn test_extension_rules() {
    assert_eq!(extension("dir/archive.tar.gz"), Some(String::from("gz")));
    assert_eq!(extension("plain"), None);
    assert_eq!(extension("dir/.hidden"), None);
    assert_eq!(extension("a.b/plain"), None);
}

#[test]
fn test_path_lookup_yields_one_vertex_when_present() {
    let found = path("deploy/main.tf", true);
    assert_eq!(found.len(), 1);
    assert!(matches!(&found[0], FsVertex::Path(p) if p == "deploy/main.tf"));
    assert!(path("missing", false).is_empty());
}

fn integration_extension() -> Json {
    Json::Obj(vec![
        (String::from("type"), Json::Str(String::from("aws_proxy"))),
        (String::from("httpMethod"), Json::Str(String::from("POST"))),
        (
            String::from("uri"),
            Json::Str(String::from(
                "arn:aws:apigateway:us-east-1:lambda:path/functions/function{checkout}/invocations",
            )),
        ),
        (
            String::from("passthroughBehavior"),
            Json::Str(String::from("when_no_match")),
        ),
        (String::from("timeoutInMillis"), Json::PosInt(29000)),
    ])
}

#[test]
fn test_operation_integration_is_parsed_and_classified() {
    let operation = openapi::Operation {
        summary: Some(String::from("checkout")),
        description: None,
        tags: Vec::new(),
        extensions: vec![(
            String::from("x-amazon-apigateway-integration"),
            integration_extension(),
        )],
    };
    let operator = openapi::Operator::from_operation(&operation, "POST");
    assert_eq!(operator.method, "POST");
    assert!(operator.tags.is_none());
    let aws = operator.aws.expect("the extension is well formed");
    assert_eq!(aws.r_type, "aws_proxy");
    assert_eq!(aws.http_method, "POST");
    assert_eq!(aws.pass_through_behavior, "when_no_match");
    assert_eq!(aws.timeout_in_millis, Some(29000));
    assert_eq!(aws.trigger, "Lambda");
    assert_eq!(aws.arn, "checkout");
}

#[test]
fn test_integration_classifies_state_machines_and_other_services() {
    let mut state = openapi::AmazonApigatewayIntegration {
        r_type: String::from("aws"),
        http_method: String::from("POST"),
        uri: String::from("arn:aws:apigateway:us-east-1:state:action/StartExecution"),
        pass_through_behavior: String::from("never"),
        timeout_in_millis: None,
        trigger: String::new(),
        arn: String::new(),
    };
    assert!(state.extract_supplementary_data());
    assert_eq!(state.trigger, "Step Function");
    assert_eq!(state.arn, "");

    let mut queue = state.clone();
    queue.uri = String::from("arn:aws:apigateway:us-east-1:sqs:path/queue");
    assert!(queue.extract_supplementary_data());
    assert_eq!(queue.trigger, "sqs");

    let mut malformed = state.clone();
    malformed.uri = String::from("too:short");
    let before = malformed.clone();
    assert!(!malformed.extract_supplementary_data());
    assert_eq!(malformed.uri, before.uri);
    assert_eq!(malformed.trigger, before.trigger);
}

#[test]
fn test_malformed_extension_degrades_to_no_integration() {
    let operation = openapi::Operation {
        summary: None,
        description: None,
        tags: vec![String::from("billing")],
        extensions: vec![(
            String::from("x-amazon-apigateway-integration"),
            Json::Obj(vec![(String::from("type"), Json::Str(String::from("aws")))]),
        )],
    };
    let operator = openapi::Operator::from_operation(&operation, "GET");
    assert!(operator.aws.is_none());
    assert_eq!(operator.tags, Some(vec![String::from("billing")]));
}

#[test]
fn test_openapi_property_tables() {
    let info = openapi::Info {
        title: String::from("Orders"),
        description: None,
        version: String::from("1.2.0"),
    };
    assert!(matches!(
        openapi::resolve_info_property(&info, "title"),
        Value::Str(t) if t == "Orders"
    ));
    assert!(matches!(
        openapi::resolve_info_property(&info, "description"),
        Value::Null
    ));
    assert!(matches!(
        openapi::resolve_info_property(&info, "version"),
        Value::Str(v) if v == "1.2.0"
    ));

    let tag = openapi::Tag { name: String::from("billing"), description: None };
    assert!(matches!(
        openapi::resolve_tag_property(&tag, "name"),
        Value::Str(n) if n == "billing"
    ));

    let operation = openapi::Operation {
        summary: Some(String::from("list orders")),
        description: None,
        tags: vec![String::from("billing"), String::from("orders")],
        extensions: Vec::new(),
    };
    match openapi::resolve_operation_property(&operation, "tags") {
        Value::List(items) => {
            assert_eq!(items.len(), 2);
            assert!(matches!(&items[0], Value::Str(t) if t == "billing"));
            assert!(matches!(&items[1], Value::Str(t) if t == "orders"));
        },
        _ => panic!("tags must resolve to a list"),
    }
}

#[test]
fn test_openapi_path_edges_lead_to_operations() {
    let entry = openapi::PathEntry {
        path: String::from("/orders"),
        item: openapi::PathItem {
            get: Some(openapi::Operation {
                summary: Some(String::from("list")),
                description: None,
                tags: Vec::new(),
                extensions: Vec::new(),
            }),
            post: None,
            put: None,
            delete: None,
            patch: None,
            options: None,
        },
    };
    let get = openapi::resolve_path_edge(&entry, "get");
    assert_eq!(get.len(), 1);
    assert!(matches!(
        &get[0],
        openapi::Vertex::Operation(op) if op.summary.as_deref() == Some("list")
    ));
    assert!(openapi::resolve_path_edge(&entry, "post").is_empty());
    assert!(matches!(
        openapi::resolve_path_property(&entry, "path"),
        Value::Str(p) if p == "/orders"
    ));
}

fn sample_story() -> hn::Story {
    hn::Story {
        id: 8863,
        descendants: 71,
        by: String::from("dhouston"),
        kids: Some(vec![9224, 8952]),
        score: 104,
        title: String::from("My YC app"),
        url: Some(String::from("http://www.example.com/")),
        text: None,
        time: 1175714200,
    }
}

#[test]
fn test_item_url_property_is_rendered_from_the_id() {
    let vertex = hn::Vertex::Story(sample_story());
    let url = hn::resolve_property(&vertex, "Story", "url");
    assert!(matches!(
        url,
        Value::Str(u) if u == "https://news.ycombinator.com/item?id=8863"
    ));
}

#[test]
fn test_story_property_table() {
    let story = sample_story();
    assert!(matches!(hn::resolve_story_property(&story, "score"), Value::Uint64(104)));
    assert!(matches!(hn::resolve_story_property(&story, "text"), Value::Null));
    assert!(matches!(
        hn::resolve_story_property(&story, "byUsername"),
        Value::Str(b) if b == "dhouston"
    ));
    let vertex = hn::Vertex::Story(sample_story());
    assert!(matches!(
        hn::resolve_property(&vertex, "Story", "__typename"),
        Value::Str(t) if t == "Story"
    ));
}

#[test]
fn test_starting_plans() {
    let adapter = hn::HackerNewsAdapter::new();
    let front = adapter.resolve_starting_vertices("FrontPage", &Vec::new());
    assert!(matches!(front, hn::FetchPlan::TopStories { max: Some(30) }));

    let args = vec![(String::from("max"), Value::Int64(10))];
    let top = adapter.resolve_starting_vertices("Top", &args);
    assert!(matches!(top, hn::FetchPlan::TopStories { max: Some(10) }));
    let latest = adapter.resolve_starting_vertices("Latest", &args);
    assert!(matches!(latest, hn::FetchPlan::NewStories { max: Some(10) }));

    let unbounded = vec![(String::from("max"), Value::Null)];
    let all = adapter.resolve_starting_vertices("Top", &unbounded);
    assert!(matches!(all, hn::FetchPlan::TopStories { max: None }));

    let user_args = vec![(String::from("name"), Value::Str(String::from("pg")))];
    let user = adapter.resolve_starting_vertices("User", &user_args);
    assert!(matches!(user, hn::FetchPlan::UserByName { name } if name == "pg"));
}

#[test]
fn test_coercion_follows_the_item_interface() {
    let adapter = hn::HackerNewsAdapter::new();
    let story = hn::Vertex::Story(sample_story());
    assert!(adapter.resolve_coercion(&story, "Story"));
    assert!(adapter.resolve_coercion(&story, "Item"));
    assert!(!adapter.resolve_coercion(&story, "Comment"));
    let user = hn::Vertex::User(hn::User {
        id: String::from("pg"),
        created: 1,
        karma: 10,
        delay: None,
        about: None,
        submitted: vec![1, 2],
    });
    assert!(adapter.resolve_coercion(&user, "User"));
    assert!(!adapter.resolve_coercion(&user, "Item"));
}

#[test]
fn test_fetched_items_become_vertices_and_failures_are_skipped() {
    let fetched = vec![
        Some(hn::Item::Story(sample_story())),
        None,
        Some(hn::Item::Comment(hn::Comment {
            id: 9224,
            by: String::from("pg"),
            kids: None,
            parent: 8863,
            text: String::from("nice"),
            time: 1175714500,
        })),
    ];
    let vertices = hn::items_to_vertices(fetched);
    assert_eq!(vertices.len(), 2);
    assert!(matches!(&vertices[0], hn::Vertex::Story(s) if s.id == 8863));
    assert!(matches!(&vertices[1], hn::Vertex::Comment(c) if c.id == 9224));
}

#[test]
fn test_edges_plan_the_right_fetches() {
    let story = sample_story();
    let comments = hn::resolve_story_edge(&story, "comment");
    assert!(matches!(comments, hn::NeighborFetch::Items(ids) if ids == vec![9224, 8952]));
    let author = hn::resolve_story_edge(&story, "byUser");
    assert!(matches!(author, hn::NeighborFetch::User(n) if n == "dhouston"));

    let comment = hn::Comment {
        id: 9224,
        by: String::from("pg"),
        kids: None,
        parent: 8863,
        text: String::from("nice"),
        time: 1175714500,
    };
    let parent = hn::resolve_comment_edge(&comment, "parent");
    assert!(matches!(parent, hn::NeighborFetch::Item(8863)));
    let replies = hn::resolve_comment_edge(&comment, "reply");
    assert!(matches!(replies, hn::NeighborFetch::Items(ids) if ids.is_empty()));
}

#[test]
fn test_limit_ids_takes_a_prefix() {
    assert_eq!(hn::limit_ids(vec![1, 2, 3], Some(2)), vec![1, 2]);
    assert_eq!(hn::limit_ids(vec![1, 2, 3], Some(9)), vec![1, 2, 3]);
    assert_eq!(hn::limit_ids(vec![1, 2, 3], None), vec![1, 2, 3]);
}

#[test]
fn test_openapi_path_lookup_finds_the_first_match() {
    let empty_item = openapi::PathItem {
        get: None,
        post: None,
        put: None,
        delete: None,
        patch: None,
        options: None,
    };
    let doc = openapi::OpenApiDocument {
        info: openapi::Info {
            title: String::from("Orders"),
            description: None,
            version: String::from("1.0.0"),
        },
        paths: vec![
            openapi::PathEntry { path: String::from("/orders"), item: empty_item.clone() },
            openapi::PathEntry { path: String::from("/users"), item: empty_item.clone() },
        ],
        tags: Vec::new(),
    };
    let found = openapi::path("/users", &doc);
    assert_eq!(found.len(), 1);
    assert!(matches!(&found[0], openapi::Vertex::Path(entry) if entry.path == "/users"));
    assert!(openapi::path("/missing", &doc).is_empty());

    let info = openapi::info(&doc);
    assert_eq!(info.len(), 1);
    let paths = openapi::paths(&doc);
    assert!(matches!(&paths[0], openapi::Vertex::Paths(entries) if entries.len() == 2));
    let tags = openapi::tags(&doc);
    assert!(matches!(&tags[0], openapi::Vertex::Tags(ts) if ts.is_empty()));
}
