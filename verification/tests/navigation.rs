use gql_path::base::{
    union_fragment, Canonicalizable, Decodable, Error, Fragment, Index, Json, Link, Path,
    Queryable, Selection, Union,
};
use std::sync::Arc;

/// Stands for the transport that the handles of one session share.
struct Wire;

fn convert(value: serde_json::Value) -> Json {
    match value {
        serde_json::Value::Null => Json::Null,
        serde_json::Value::Bool(b) => Json::Bool(b),
        serde_json::Value::Number(n) => Json::Number(n.to_string()),
        serde_json::Value::String(s) => Json::String(s),
        serde_json::Value::Array(items) => Json::Array(items.into_iter().map(convert).collect()),
        serde_json::Value::Object(entries) => {
            Json::Object(entries.into_iter().map(|(k, v)| (k, convert(v))).collect())
        }
    }
}

fn json(text: &str) -> Json {
    convert(serde_json::from_str(text).unwrap())
}

fn literal(text: &str) -> String {
    serde_json::to_string(text).unwrap()
}

fn string_at(value: &Json, key: &str) -> Option<String> {
    value.get(&key.to_string())?.as_string().cloned()
}

fn number_at(value: &Json, key: &str) -> Option<isize> {
    value.get(&key.to_string())?.as_number()?.parse().ok()
}

fn fields(kind: &str, names: &[&str]) -> Fragment {
    Fragment {
        kind: kind.to_string(),
        body: names.iter().map(|n| Selection::Field(n.to_string())).collect(),
    }
}

fn node(kind: &str, id: &str) -> Vec<Link> {
    vec![Link {
        kind: Some(kind.to_string()),
        indx: Index { name: "node".to_string(), args: vec![("id".to_string(), literal(id))] },
    }]
}

#[derive(Debug, Default)]
struct Query {}

impl Queryable for Query {
    fn query() -> Fragment {
        fields("Query", &[])
    }
}

impl Canonicalizable for Query {
    fn canonicalize(&self) -> Vec<Link> {
        vec![]
    }
}

#[derive(Debug, PartialEq)]
struct User {
    id: String,
    login: String,
}

impl Queryable for User {
    fn query() -> Fragment {
        fields("User", &["id", "login"])
    }
}

impl Decodable for User {
    fn read(value: &Json) -> Option<Self> {
        Some(User { id: string_at(value, "id")?, login: string_at(value, "login")? })
    }
}

impl Canonicalizable for User {
    fn canonicalize(&self) -> Vec<Link> {
        node("User", &self.id)
    }
}

#[derive(Debug, PartialEq)]
struct UserStatus {
    indicates_limited_availability: bool,
}

impl Queryable for UserStatus {
    fn query() -> Fragment {
        fields("UserStatus", &["indicatesLimitedAvailability"])
    }
}

impl Decodable for UserStatus {
    fn read(value: &Json) -> Option<Self> {
        let flag = value.get(&"indicatesLimitedAvailability".to_string())?.as_bool()?;
        Some(UserStatus { indicates_limited_availability: flag })
    }
}

#[derive(Debug, PartialEq)]
struct Repository {
    id: String,
    name: String,
}

impl Queryable for Repository {
    fn query() -> Fragment {
        fields("Repository", &["id", "name"])
    }
}

impl Decodable for Repository {
    fn read(value: &Json) -> Option<Self> {
        Some(Repository { id: string_at(value, "id")?, name: string_at(value, "name")? })
    }
}

impl Canonicalizable for Repository {
    fn canonicalize(&self) -> Vec<Link> {
        node("Repository", &self.id)
    }
}

#[derive(Debug, PartialEq)]
struct Issue {
    id: String,
    number: isize,
    title: String,
}

impl Queryable for Issue {
    fn query() -> Fragment {
        fields("Issue", &["id", "number", "title"])
    }
}

impl Decodable for Issue {
    fn read(value: &Json) -> Option<Self> {
        Some(Issue {
            id: string_at(value, "id")?,
            number: number_at(value, "number")?,
            title: string_at(value, "title")?,
        })
    }
}

impl Canonicalizable for Issue {
    fn canonicalize(&self) -> Vec<Link> {
        node("Issue", &self.id)
    }
}

#[derive(Debug, PartialEq)]
struct PullRequest {
    id: String,
    number: isize,
    title: String,
}

impl Queryable for PullRequest {
    fn query() -> Fragment {
        fields("PullRequest", &["id", "number", "title"])
    }
}

impl Decodable for PullRequest {
    fn read(value: &Json) -> Option<Self> {
        Some(PullRequest {
            id: string_at(value, "id")?,
            number: number_at(value, "number")?,
            title: string_at(value, "title")?,
        })
    }
}

enum IssueOrPullRequest {
    Issue(Path<Wire, Issue>),
    PullRequest(Path<Wire, PullRequest>),
}

impl std::fmt::Debug for IssueOrPullRequest {
    fn fmt(&self, f: &mut std::fmt::Formatter<'_>) -> std::fmt::Result {
        f.write_str(&match self {
            IssueOrPullRequest::Issue(p) => format!("Issue({:?})", p.item()),
            IssueOrPullRequest::PullRequest(p) => format!("PullRequest({:?})", p.item()),
        })
    }
}

impl Queryable for IssueOrPullRequest {
    fn query() -> Fragment {
        union_fragment(
            "IssueOrPullRequest".to_string(),
            vec![Issue::query(), PullRequest::query()],
        )
    }
}

impl Union<Wire> for IssueOrPullRequest {
    fn variants() -> Vec<String> {
        vec!["Issue".to_string(), "PullRequest".to_string()]
    }

    fn decode_variant<T>(
        from: &Path<Wire, T>,
        which: usize,
        target: Link,
        value: Json,
    ) -> Result<Self, Error> {
        match which {
            0 => Ok(IssueOrPullRequest::Issue(from.decode(target, value)?)),
            1 => Ok(IssueOrPullRequest::PullRequest(from.decode(target, value)?)),
            _ => Err(Error::UnknownVariant),
        }
    }
}

fn root() -> Path<Wire, Query> {
    Path::new(Arc::new(Wire), Query::default())
}

fn user_of(query: &Path<Wire, Query>, login: &str, envelope: &str) -> Result<Path<Wire, User>, Error> {
    let index = Index { name: "user".to_string(), args: vec![("login".to_string(), literal(login))] };
    let (link, _) = query.request::<User>(index, false);
    query.resolve(link, json(envelope))
}

fn repository_of(
    query: &Path<Wire, Query>,
    name: &str,
    owner: &str,
    envelope: &str,
) -> Result<Option<Path<Wire, Repository>>, Error> {
    let index = Index {
        name: "repository".to_string(),
        args: vec![("owner".to_string(), literal(owner)), ("name".to_string(), literal(name))],
    };
    let (link, _) = query.request::<Repository>(index, false);
    query.resolve_optional(link, json(envelope))
}

fn status_of(user: &Path<Wire, User>, envelope: &str) -> Result<Option<Path<Wire, UserStatus>>, Error> {
    let index = Index { name: "status".to_string(), args: vec![] };
    let (link, _) = user.request::<UserStatus>(index, false);
    user.resolve_optional(link, json(envelope))
}

fn issue_or_pull_request_of(
    repo: &Path<Wire, Repository>,
    number: isize,
    envelope: &str,
) -> Result<Option<IssueOrPullRequest>, Error> {
    let index = Index {
        name: "issueOrPullRequest".to_string(),
        args: vec![("number".to_string(), serde_json::to_string(&number).unwrap())],
    };
    let (link, _) = repo.request::<IssueOrPullRequest>(index, true);
    repo.resolve_optional_union(link, json(envelope))
}

const USER: &str = r#"{"data":{"user":{"id":"MDQ6VXNlcjE=","login":"npmccallum"}}}"#;
const REPOSITORY: &str =
    r#"{"data":{"repository":{"id":"MDEwOlJlcG9zaXRvcnkx","name":"rust-graphql"}}}"#;

#[test]
fn user() {
    let query = root();

    let user = user_of(&query, "npmccallum", USER).unwrap();
    assert_eq!(*user.item(), User { id: "MDQ6VXNlcjE=".to_string(), login: "npmccallum".to_string() });
}

#[test]
fn user_userstatus() {
    let query = root();

    let user = user_of(&query, "npmccallum", USER).unwrap();
    assert_eq!(user.item().login, "npmccallum");

    let status = status_of(
        &user,
        r#"{"data":{"user":{"status":{"indicatesLimitedAvailability":true}}}}"#,
    )
    .unwrap();
    let status = status.unwrap();
    assert_eq!(*status.item(), UserStatus { indicates_limited_availability: true });
    assert_eq!(status.chain().len(), 2);
}

#[test]
fn repository() {
    let query = root();

    let repo = repository_of(&query, "byron", "rust-graphql", REPOSITORY).unwrap().unwrap();
    assert_eq!(repo.item().name, "rust-graphql");
}

#[test]
fn repository_issue() {
    let query = root();

    let repo = repository_of(&query, "byron", "rust-graphql", REPOSITORY).unwrap().unwrap();
    assert_eq!(repo.item().name, "rust-graphql");

    let envelope = r#"{"data":{"repository":{"issueOrPullRequest":
        {"__typename":"Issue","id":"I_1","number":1,"title":"First"}}}}"#;
    match issue_or_pull_request_of(&repo, 1, envelope).unwrap() {
        Some(IssueOrPullRequest::Issue(issue)) => {
            assert_eq!(issue.item().number, 1);
            assert_eq!(issue.chain()[1].kind, Some("Issue".to_string()));
        }
        ipr => panic!("Invalid return value: {:?}", ipr),
    }
}

#[test]
fn repository_pullrequest() {
    let query = root();

    let repo = repository_of(&query, "byron", "rust-graphql", REPOSITORY).unwrap().unwrap();
    assert_eq!(repo.item().name, "rust-graphql");

    let envelope = r#"{"data":{"repository":{"issueOrPullRequest":
        {"__typename":"PullRequest","id":"PR_2","number":2,"title":"Second"}}}}"#;
    match issue_or_pull_request_of(&repo, 2, envelope).unwrap() {
        Some(IssueOrPullRequest::PullRequest(pr)) => {
            assert_eq!(pr.item().number, 2);
            assert_eq!(pr.chain()[1].kind, Some("PullRequest".to_string()));
        }
        ipr => panic!("Invalid return value: {:?}", ipr),
    }
}

#[test]
fn user_document_is_exact() {
    let query = root();
    let index =
        Index { name: "user".to_string(), args: vec![("login".to_string(), literal("alice"))] };
    let (link, text) = query.request::<User>(index, false);
    assert_eq!(text, "query { user(login: \"alice\") { id login } }");
    assert_eq!(link.kind, None);
    assert_eq!(link.indx.name, "user");
}

#[test]
fn unknown_variant_is_an_error() {
    let query = root();
    let link = Link { indx: Index { name: "x".to_string(), args: vec![] }, kind: None };
    let value = json(r#"{"__typename":"Commit","id":"C"}"#);
    let got: Result<IssueOrPullRequest, Error> = query.decode_union(link, value);
    assert!(matches!(got, Err(Error::UnknownVariant)));
}

fn index(name: &str, args: &[(&str, &str)]) -> Index {
    Index {
        name: name.to_string(),
        args: args.iter().map(|(k, v)| (k.to_string(), v.to_string())).collect(),
    }
}

fn link(name: &str, args: &[(&str, &str)], kind: Option<&str>) -> Link {
    Link { indx: index(name, args), kind: kind.map(|k| k.to_string()) }
}

#[test]
fn root_handle_has_empty_chain() {
    let query = root();
    assert!(query.chain().is_empty());
    let same: Path<Wire, Query> = Path::root(Arc::new(Wire), Query::default());
    assert!(same.chain().is_empty());
}

#[test]
fn navigate_to_user_extends_the_chain() {
    let query = root();
    let envelope = r#"{"data":{"user":{"id":"1","login":"alice"}}}"#;
    let user = user_of(&query, "alice", envelope).unwrap();
    assert_eq!(*user.chain(), vec![link("user", &[("login", "\"alice\"")], None)]);
    assert_eq!(*user.item(), User { id: "1".to_string(), login: "alice".to_string() });
    assert!(query.chain().is_empty());
}

#[test]
fn null_status_is_an_empty_result() {
    let query = root();
    let envelope = r#"{"data":{"user":{"id":"1","login":"alice"}}}"#;
    let user = user_of(&query, "alice", envelope).unwrap();
    let index = Index { name: "status".to_string(), args: vec![] };
    let (target, _) = user.request::<UserStatus>(index, false);
    // The walk follows the chain of the handle from `data`.
    let got = user.resolve_optional::<UserStatus>(target, json(r#"{"data":{"user":{"status":null}}}"#));
    assert!(matches!(got, Ok(None)));
}

#[test]
fn null_decodes_to_none_for_any_optional_request() {
    let query = root();
    let got = query.decode_optional::<User>(link("user", &[], None), Json::Null);
    assert!(matches!(got, Ok(None)));
    let got = query.decode_optional::<Repository>(link("x", &[("a", "1")], Some("Repository")), Json::Null);
    assert!(matches!(got, Ok(None)));
    let got: Result<Option<IssueOrPullRequest>, Error> =
        query.decode_optional_union(link("x", &[], None), Json::Null);
    assert!(matches!(got, Ok(None)));
}

#[test]
fn errors_envelope_is_a_protocol_failure() {
    let query = root();
    let text = r#"{"errors":[{"message":"boom"}]}"#;
    let got = user_of(&query, "alice", text);
    match got {
        Err(Error::Gql(e)) => assert_eq!(e.0, json(text)),
        _ => panic!("expected a protocol failure"),
    }
}

#[test]
fn errors_win_over_data() {
    let query = root();
    let text = r#"{"data":{"user":{"id":"1","login":"alice"}},"errors":[{"message":"boom"}]}"#;
    match user_of(&query, "alice", text) {
        Err(Error::Gql(e)) => assert_eq!(e.0, json(text)),
        _ => panic!("expected a protocol failure"),
    }
    let got = gql_path::base::extract(json(text), &vec![], &link("user", &[], None));
    assert_eq!(got, Err(gql_path::base::GqlError(json(text))));
}

#[test]
fn missing_data_is_a_protocol_failure() {
    let text = r#"{"extensions":{}}"#;
    let got = gql_path::base::extract(json(text), &vec![], &link("user", &[], None));
    assert_eq!(got, Err(gql_path::base::GqlError(json(text))));
}

#[test]
fn missing_key_on_the_walk_is_a_protocol_failure() {
    let text = r#"{"data":{"user":{"id":"1"}}}"#;
    let chain = vec![link("user", &[], None)];
    let got = gql_path::base::extract(json(text), &chain, &link("status", &[], None));
    assert_eq!(got, Err(gql_path::base::GqlError(json(text))));
    let text = r#"{"data":{"user":[1,2]}}"#;
    let got = gql_path::base::extract(json(text), &chain, &link("status", &[], None));
    assert_eq!(got, Err(gql_path::base::GqlError(json(text))));
}

#[test]
fn extract_moves_the_answer_out() {
    let text = r#"{"data":{"a":{"b":{"c":[1,"x",null]}}}}"#;
    let chain = vec![link("a", &[], Some("A")), link("b", &[("k", "1")], None)];
    let got = gql_path::base::extract(json(text), &chain, &link("c", &[], Some("C")));
    assert_eq!(got, Ok(json(r#"[1,"x",null]"#)));
    let got = gql_path::base::extract(json(r#"{"data":{"c":null}}"#), &vec![], &link("c", &[], None));
    assert_eq!(got, Ok(Json::Null));
}

#[test]
fn lookup_takes_the_first_entry() {
    let object = Json::Object(vec![
        ("k".to_string(), Json::Bool(true)),
        ("k".to_string(), Json::Bool(false)),
    ]);
    assert_eq!(object.get(&"k".to_string()), Some(&Json::Bool(true)));
    assert_eq!(object.get(&"K".to_string()), None);
    assert_eq!(Json::Null.get(&"k".to_string()), None);
    assert_eq!(object.into_member(&"k".to_string()), Some(Json::Bool(true)));
}

#[test]
fn compose_without_arguments() {
    let text = gql_path::base::compose(&vec![], &link("status", &[], None), &fields("S", &["id"]));
    assert_eq!(text, "query { status { id } }");
}

#[test]
fn compose_keeps_the_order_of_arguments() {
    let target = link("repository", &[("owner", "\"byron\""), ("name", "\"rust-graphql\"")], None);
    let text = gql_path::base::compose(&vec![], &target, &Repository::query());
    assert_eq!(text, "query { repository(owner: \"byron\", name: \"rust-graphql\") { id name } }");
}

#[test]
fn compose_wraps_from_leaf_to_root() {
    let chain = vec![
        link("node", &[("id", "\"R1\"")], Some("Repository")),
        link("owner", &[], None),
    ];
    let target = link("status", &[], Some("UserStatus"));
    let text = gql_path::base::compose(&chain, &target, &UserStatus::query());
    assert_eq!(
        text,
        "query { node(id: \"R1\") { ... on Repository { owner { status { ... on UserStatus { \
         indicatesLimitedAvailability } } } } } }"
    );
}

#[test]
fn compose_renders_nested_fragments() {
    let text =
        gql_path::base::compose(&vec![], &link("x", &[("number", "1")], None), &IssueOrPullRequest::query());
    assert_eq!(
        text,
        "query { x(number: 1) { __typename ... on Issue { id number title } ... on PullRequest { \
         id number title } } }"
    );
}

#[test]
fn compose_with_an_empty_body() {
    let text = gql_path::base::compose(&vec![], &link("x", &[], None), &Query::query());
    assert_eq!(text, "query { x {  } }");
}

#[test]
fn same_request_gives_the_same_document() {
    let query = root();
    let user = user_of(&query, "alice", r#"{"data":{"user":{"id":"1","login":"alice"}}}"#).unwrap();
    let (_, first) =
        user.request::<Repository>(index("repository", &[("name", "\"r\"")]), true);
    let (_, second) =
        user.request::<Repository>(index("repository", &[("name", "\"r\"")]), true);
    assert_eq!(first, second);
    assert_eq!(
        first,
        "query { user(login: \"alice\") { repository(name: \"r\") { ... on Repository { id name } } } }"
    );
}

#[test]
fn target_carries_the_kind_only_for_polymorphic_fields() {
    let plain = gql_path::base::target(index("user", &[]), &User::query(), false);
    assert_eq!(plain, link("user", &[], None));
    let narrowed = gql_path::base::target(index("node", &[("id", "\"1\"")]), &User::query(), true);
    assert_eq!(narrowed, link("node", &[("id", "\"1\"")], Some("User")));
}

#[test]
fn canonical_handle_holds_the_same_item() {
    let query = root();
    let repo = repository_of(&query, "r", "o", r#"{"data":{"repository":{"id":"R1","name":"r"}}}"#)
        .unwrap()
        .unwrap();
    let (target, _) = repo.request::<User>(index("owner", &[]), false);
    let reached = repo
        .resolve::<User>(target, json(r#"{"data":{"repository":{"owner":{"id":"7","login":"bob"}}}}"#))
        .unwrap();
    assert_eq!(reached.chain().len(), 2);
    let canonical = reached.absolute();
    assert_eq!(*canonical.chain(), vec![link("node", &[("id", "\"7\"")], Some("User"))]);

    let (target, text) = query.request::<User>(index("node", &[("id", "\"7\"")]), true);
    assert_eq!(text, "query { node(id: \"7\") { ... on User { id login } } }");
    let direct =
        query.resolve::<User>(target, json(r#"{"data":{"node":{"id":"7","login":"bob"}}}"#)).unwrap();
    assert_eq!(canonical.item(), direct.item());
    assert_eq!(canonical.chain(), direct.chain());
}

#[test]
fn list_yields_one_canonical_handle_per_element() {
    let query = root();
    let value = json(r#"[{"id":"1","login":"a"},{"id":"2","login":"b"},{"id":"3","login":"c"}]"#);
    let users = query.decode_list::<User>(link("users", &[], None), value).unwrap();
    assert_eq!(users.len(), 3);
    assert_eq!(users[0].item().login, "a");
    assert_eq!(users[1].item().login, "b");
    assert_eq!(users[2].item().login, "c");
    assert_eq!(*users[0].chain(), vec![link("node", &[("id", "\"1\"")], Some("User"))]);
    assert_eq!(*users[2].chain(), vec![link("node", &[("id", "\"3\"")], Some("User"))]);
    assert!(Arc::ptr_eq(users[0].transport(), query.transport()));
    assert!(Arc::ptr_eq(users[2].transport(), query.transport()));
}

#[test]
fn empty_array_is_an_empty_list() {
    let query = root();
    let users = query.decode_list::<User>(link("users", &[], None), json("[]")).unwrap();
    assert!(users.is_empty());
    let users = query
        .resolve_list::<User>(link("users", &[], None), json(r#"{"data":{"users":[]}}"#))
        .unwrap();
    assert!(users.is_empty());
}

#[test]
fn list_of_the_wrong_shape_is_a_decode_failure() {
    let query = root();
    let got = query.decode_list::<User>(link("users", &[], None), json(r#"{"id":"1"}"#));
    assert!(matches!(got, Err(Error::Decode)));
    let got = query.decode_list::<User>(link("users", &[], None), json(r#"[{"id":"1","login":"a"},7]"#));
    assert!(matches!(got, Err(Error::Decode)));
    let got = query.decode_list::<User>(link("users", &[], None), Json::Null);
    assert!(matches!(got, Err(Error::Decode)));
}

#[test]
fn entity_of_the_wrong_shape_is_a_decode_failure() {
    let query = root();
    let got = query.decode::<User>(link("user", &[], None), json("[1]"));
    assert!(matches!(got, Err(Error::Decode)));
    let got = query.decode_optional::<User>(link("user", &[], None), json("3"));
    assert!(matches!(got, Err(Error::Decode)));
    let got = query.place::<User>(link("user", &[], None), None);
    assert!(matches!(got, Err(Error::Decode)));
}

#[test]
fn union_is_tagged_by_the_typename() {
    let query = root();
    let value = json(r#"{"__typename":"Issue","id":"I","number":5,"title":"t"}"#);
    let got: IssueOrPullRequest = query.decode_union(link("x", &[], None), value).unwrap();
    match got {
        IssueOrPullRequest::Issue(issue) => {
            assert_eq!(*issue.item(), Issue { id: "I".to_string(), number: 5, title: "t".to_string() });
            assert_eq!(*issue.chain(), vec![link("x", &[], Some("Issue"))]);
        }
        other => panic!("Invalid return value: {:?}", other),
    }
}

#[test]
fn variant_names_are_compared_exactly() {
    let names = vec!["Issue".to_string(), "PullRequest".to_string()];
    let pick = |text: &str| gql_path::base::select_variant(&json(text), &names);
    assert_eq!(pick(r#"{"__typename":"Issue"}"#), Ok(0));
    assert_eq!(pick(r#"{"__typename":"PullRequest"}"#), Ok(1));
    assert_eq!(pick(r#"{"__typename":"issue"}"#), Err(Error::UnknownVariant));
    assert_eq!(pick(r#"{"__typename":"Commit"}"#), Err(Error::UnknownVariant));
    assert_eq!(pick(r#"{"id":"1"}"#), Err(Error::UnknownVariant));
    assert_eq!(pick(r#"{"__typename":3}"#), Err(Error::UnknownVariant));
    assert_eq!(pick("[]"), Err(Error::UnknownVariant));
    let twice = vec!["A".to_string(), "A".to_string()];
    assert_eq!(gql_path::base::select_variant(&json(r#"{"__typename":"A"}"#), &twice), Ok(0));
}

#[test]
fn missing_typename_is_an_unknown_variant() {
    let query = root();
    let got: Result<IssueOrPullRequest, Error> =
        query.decode_union(link("x", &[], None), json(r#"{"id":"C"}"#));
    assert!(matches!(got, Err(Error::UnknownVariant)));
    let got: Result<Option<IssueOrPullRequest>, Error> = query.resolve_optional_union(
        link("x", &[], None),
        json(r#"{"data":{"x":{"__typename":"Commit"}}}"#),
    );
    assert!(matches!(got, Err(Error::UnknownVariant)));
}

#[test]
fn union_fragment_lists_typename_and_variants() {
    let fragment = IssueOrPullRequest::query();
    assert_eq!(fragment.kind, "IssueOrPullRequest");
    assert_eq!(
        fragment.body,
        vec![
            Selection::Field("__typename".to_string()),
            Selection::Fragment(Issue::query()),
            Selection::Fragment(PullRequest::query()),
        ]
    );
    assert_eq!(union_fragment("U".to_string(), vec![]).body.len(), 1);
}

#[test]
fn read_typename_wants_a_string() {
    assert_eq!(
        gql_path::base::read_typename(&json(r#"{"__typename":"Issue"}"#)),
        Some(&"Issue".to_string())
    );
    assert_eq!(gql_path::base::read_typename(&json(r#"{"__typename":null}"#)), None);
    assert_eq!(gql_path::base::read_typename(&json("{}")), None);
}

#[test]
fn status_other_than_success_is_a_transport_failure() {
    assert_eq!(gql_path::base::check_status(200), Ok(()));
    assert_eq!(gql_path::base::check_status(404), Err(gql_path::base::HttpError(404)));
    assert_eq!(gql_path::base::check_status(201), Err(gql_path::base::HttpError(201)));
    assert_eq!(gql_path::base::check_status(0), Err(gql_path::base::HttpError(0)));
}

#[test]
fn transpose_keeps_chain_and_transport() {
    let http = Arc::new(Wire);
    let some: Path<Wire, Option<u8>> =
        Path::from_parts(http.clone(), vec![link("a", &[], None)], Some(4));
    let got = some.transpose().unwrap();
    assert_eq!(*got.item(), 4);
    assert_eq!(*got.chain(), vec![link("a", &[], None)]);
    assert!(Arc::ptr_eq(got.transport(), &http));
    let none: Path<Wire, Option<u8>> = Path::from_parts(http, vec![], None);
    assert!(none.transpose().is_none());
}

#[test]
fn spread_drops_the_chain_of_the_list() {
    let http = Arc::new(Wire);
    let items = vec![
        User { id: "1".to_string(), login: "a".to_string() },
        User { id: "2".to_string(), login: "b".to_string() },
    ];
    let whole = Path::from_parts(http.clone(), vec![link("users", &[], None)], items);
    let each = whole.spread();
    assert_eq!(each.len(), 2);
    assert_eq!(each[0].item().id, "1");
    assert_eq!(each[1].item().id, "2");
    assert_eq!(*each[1].chain(), vec![link("node", &[("id", "\"2\"")], Some("User"))]);
    assert!(Arc::ptr_eq(each[0].transport(), &http));
}

#[test]
fn rebase_and_extend_leave_the_item() {
    let query = root();
    let user = query.extend(link("user", &[], None), 7u8);
    assert_eq!(*user.item(), 7);
    let moved = user.rebase(vec![link("node", &[], Some("N")), link("x", &[], None)]);
    assert_eq!(moved.chain().len(), 2);
    assert_eq!(moved.into_item(), 7);
}

#[test]
fn clones_are_equal() {
    let original = link("user", &[("login", "\"a\""), ("n", "1")], Some("User"));
    assert_eq!(original.clone(), original);
    assert_eq!(original.indx.clone(), original.indx);
    let chain = vec![link("a", &[], None), original];
    assert_eq!(gql_path::base::wire::clone_chain(&chain), chain);
}

#[test]
fn json_accessors_tell_the_kinds_apart() {
    assert!(Json::Null.is_null());
    assert!(!Json::Bool(false).is_null());
    assert_eq!(json("\"x\"").as_string(), Some(&"x".to_string()));
    assert_eq!(json("12").as_number(), Some(&"12".to_string()));
    assert_eq!(json("12").as_string(), None);
    assert_eq!(json("true").as_bool(), Some(true));
    assert_eq!(json("[1]").as_array().map(|a| a.len()), Some(1));
    assert_eq!(json("{}").as_array(), None);
}

#[test]
fn handle_clone_keeps_chain_and_transport() {
    let http = Arc::new(Wire);
    let handle = Path::from_parts(http.clone(), vec![link("a", &[("k", "1")], Some("A"))], 9u8);
    let copy = handle.clone();
    assert_eq!(copy.chain(), handle.chain());
    assert_eq!(copy.item(), handle.item());
    assert!(Arc::ptr_eq(copy.transport(), &http));
}

#[test]
fn document_and_answer_follow_the_chain_of_the_handle() {
    let handle = Path::from_parts(Arc::new(Wire), vec![link("a", &[], Some("A"))], ());
    let target = link("b", &[("n", "2")], None);
    let text = handle.document(&target, &fields("B", &["x", "y"]));
    assert_eq!(text, "query { a { ... on A { b(n: 2) { x y } } } }");
    let got = handle.answer(&target, json(r#"{"data":{"a":{"b":{"x":1,"y":2}}}}"#));
    assert_eq!(got, Ok(json(r#"{"x":1,"y":2}"#)));
    let envelope = r#"{"data":{"b":{"x":1}}}"#;
    let got = handle.answer(&target, json(envelope));
    assert_eq!(got, Err(Error::Gql(gql_path::base::GqlError(json(envelope)))));
}
