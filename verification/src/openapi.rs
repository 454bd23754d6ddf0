//! The API-specification domain adapter's resolution logic: the document's
//! vertex union (info, paths, operations, tags), its property tables, and
//! the vendor cloud-gateway integration extension of an operation. The
//! extension, when present, is parsed from its JSON tree into a structured
//! value with a derived trigger kind and target identifier, obtained by
//! splitting the target URI on a fixed delimiter and classifying the
//! relevant segment; a malformed or absent extension degrades to "no
//! integration" rather than failing the document.

use vstd::prelude::*;
use vstd::string::*;
use crate::text::{between_braces, split_char, str_eq};
use crate::value::{Json, JsonModel, Value, ValueModel};

verus! {

/// Mathematical model of an [`Info`].
pub struct InfoModel {
    pub title: Seq<char>,
    pub description: Option<Seq<char>>,
    pub version: Seq<char>,
}

/// The document-level information of an API-specification document.
pub struct Info {
    pub title: String,
    pub description: Option<String>,
    pub version: String,
}

impl DeepView for Info {
    type V = InfoModel;

    open spec fn deep_view(&self) -> InfoModel {
        InfoModel {
            title: self.title@,
            description: self.description.deep_view(),
            version: self.version.deep_view(),
        }
    }
}

impl Clone for Info {
    fn clone(&self) -> (res: Self)
        ensures
            res.deep_view() == self.deep_view(),
    {
        Info {
            title: self.title.clone(),
            description: match &self.description {
                Some(d) => Some(d.clone()),
                None => None,
            },
            version: self.version.clone(),
        }
    }
}

/// Mathematical model of a [`Tag`].
pub struct TagModel {
    pub name: Seq<char>,
    pub description: Option<Seq<char>>,
}

/// One tag declared by an API-specification document.
pub struct Tag {
    pub name: String,
    pub description: Option<String>,
}

impl DeepView for Tag {
    type V = TagModel;

    open spec fn deep_view(&self) -> TagModel {
        TagModel { name: self.name@, description: self.description.deep_view() }
    }
}

impl Clone for Tag {
    fn clone(&self) -> (res: Self)
        ensures
            res.deep_view() == self.deep_view(),
    {
        Tag {
            name: self.name.clone(),
            description: match &self.description {
                Some(d) => Some(d.clone()),
                None => None,
            },
        }
    }
}

/// Mathematical model of an [`Operation`].
pub struct OperationModel {
    pub summary: Option<Seq<char>>,
    pub description: Option<Seq<char>>,
    pub tags: Seq<Seq<char>>,
    pub extensions: Seq<(Seq<char>, JsonModel)>,
}

/// One operation (one HTTP method on a path) of an API-specification
/// document, with its vendor extensions as raw JSON trees.
pub struct Operation {
    pub summary: Option<String>,
    pub description: Option<String>,
    pub tags: Vec<String>,
    pub extensions: Vec<(String, Json)>,
}

impl DeepView for Operation {
    type V = OperationModel;

    open spec fn deep_view(&self) -> OperationModel {
        OperationModel {
            summary: self.summary.deep_view(),
            description: self.description.deep_view(),
            tags: self.tags.deep_view(),
            extensions: self.extensions.deep_view(),
        }
    }
}

/// Copy a list of named JSON trees.
fn clone_json_entries(entries: &Vec<(String, Json)>) -> (out: Vec<(String, Json)>)
    ensures
        out.deep_view() == entries.deep_view(),
{
    let mut out: Vec<(String, Json)> = Vec::new();
    let mut i: usize = 0;
    #[verifier::loop_isolation(false)]
    while i < entries.len()
        invariant
            i <= entries.len(),
            out.deep_view() =~= entries.deep_view().take(i as int),
        decreases entries.len() - i,
    {
        let pair = &entries[i];
        out.push((pair.0.clone(), pair.1.clone()));
        i = i + 1;
    }
    proof {
        assert(out.deep_view() =~= entries.deep_view());
    }
    out
}

/// Copy a list of strings.
fn clone_strings(items: &Vec<String>) -> (out: Vec<String>)
    ensures
        out.deep_view() == items.deep_view(),
{
    let mut out: Vec<String> = Vec::new();
    let mut i: usize = 0;
    #[verifier::loop_isolation(false)]
    while i < items.len()
        invariant
            i <= items.len(),
            out.deep_view() =~= items.deep_view().take(i as int),
        decreases items.len() - i,
    {
        out.push(items[i].clone());
        i = i + 1;
    }
    proof {
        assert(out.deep_view() =~= items.deep_view());
    }
    out
}

impl Clone for Operation {
    fn clone(&self) -> (res: Self)
        ensures
            res.deep_view() == self.deep_view(),
    {
        Operation {
            summary: match &self.summary {
                Some(s) => Some(s.clone()),
                None => None,
            },
            description: match &self.description {
                Some(s) => Some(s.clone()),
                None => None,
            },
            tags: clone_strings(&self.tags),
            extensions: clone_json_entries(&self.extensions),
        }
    }
}

/// Mathematical model of an [`AmazonApigatewayIntegration`].
pub struct IntegrationModel {
    pub r_type: Seq<char>,
    pub http_method: Seq<char>,
    pub uri: Seq<char>,
    pub pass_through_behavior: Seq<char>,
    pub timeout_in_millis: Option<u64>,
    pub trigger: Seq<char>,
    pub arn: Seq<char>,
}

/// The cloud-gateway integration extension of an operation: its declared
/// fields, plus the trigger kind and target identifier derived from the
/// target URI.
pub struct AmazonApigatewayIntegration {
    pub r_type: String,
    pub http_method: String,
    pub uri: String,
    pub pass_through_behavior: String,
    pub timeout_in_millis: Option<u64>,
    pub trigger: String,
    pub arn: String,
}

impl DeepView for AmazonApigatewayIntegration {
    type V = IntegrationModel;

    open spec fn deep_view(&self) -> IntegrationModel {
        IntegrationModel {
            r_type: self.r_type@,
            http_method: self.http_method@,
            uri: self.uri@,
            pass_through_behavior: self.pass_through_behavior@,
            timeout_in_millis: self.timeout_in_millis,
            trigger: self.trigger@,
            arn: self.arn@,
        }
    }
}

impl Clone for AmazonApigatewayIntegration {
    fn clone(&self) -> (res: Self)
        ensures
            res.deep_view() == self.deep_view(),
    {
        AmazonApigatewayIntegration {
            r_type: self.r_type.clone(),
            http_method: self.http_method.clone(),
            uri: self.uri.clone(),
            pass_through_behavior: self.pass_through_behavior.clone(),
            timeout_in_millis: self.timeout_in_millis,
            trigger: self.trigger.clone(),
            arn: self.arn.clone(),
        }
    }
}

/// The trigger kind and, for a compute-function target, the extracted target
/// identifier that a target URI classifies to. The URI is split on `:`;
/// classification reads the fifth segment. A URI with fewer segments, or a
/// compute-function URI whose last segment has no brace-enclosed identifier,
/// is malformed and classifies to nothing.
pub open spec fn integration_update(uri: Seq<char>) -> Option<(Seq<char>, Option<Seq<char>>)> {
    let parts = split_char(uri, ':');
    if parts.len() <= 4 {
        None
    } else if parts[4] == "lambda"@ {
        match between_braces(parts.last()) {
            None => None,
            Some(arn) => Some(("Lambda"@, Some(arn))),
        }
    } else if parts[4] == "state"@ {
        Some(("Step Function"@, None))
    } else {
        Some((parts[4], None))
    }
}

impl AmazonApigatewayIntegration {
    /// Derive the trigger kind and target identifier from the target URI,
    /// leaving everything else unchanged; a malformed URI leaves the whole
    /// value unchanged and reports failure.
    pub fn extract_supplementary_data(&mut self) -> (ok: bool)
        ensures
            ok <==> integration_update(old(self).uri@) is Some,
            ok ==> final(self).deep_view() == (IntegrationModel {
                trigger: integration_update(old(self).uri@).unwrap().0,
                arn: match integration_update(old(self).uri@).unwrap().1 {
                    Some(arn) => arn,
                    None => old(self).arn@,
                },
                ..old(self).deep_view()
            }),
            !ok ==> *final(self) == *old(self),
    {
        let parts = crate::text::split_string(self.uri.as_str(), ':');
        proof {
            crate::text::lemma_split_char_len(self.uri@, ':');
        }
        if parts.len() <= 4 {
            return false;
        }
        proof {
            assert(parts.deep_view()[4] == parts@[4]@);
            assert(parts.deep_view().last() == parts@[parts@.len() - 1]@);
        }
        if str_eq(parts[4].as_str(), "lambda") {
            let last = &parts[parts.len() - 1];
            match crate::text::extract_between_braces(last.as_str()) {
                Some(arn) => {
                    self.trigger = String::from_str("Lambda");
                    self.arn = arn;
                    true
                },
                None => false,
            }
        } else if str_eq(parts[4].as_str(), "state") {
            self.trigger = String::from_str("Step Function");
            true
        } else {
            self.trigger = parts[4].clone();
            true
        }
    }
}

/// The first JSON tree under the given name, scanning the fields in order.
pub open spec fn lookup_json(fields: Seq<(Seq<char>, JsonModel)>, key: Seq<char>) -> Option<
    JsonModel,
>
    decreases fields.len(),
{
    if fields.len() == 0 {
        None
    } else if fields[0].0 == key {
        Some(fields[0].1)
    } else {
        lookup_json(fields.drop_first(), key)
    }
}

/// Looking a key up past a prefix without it looks it up in the rest.
proof fn lemma_lookup_json_skip(fields: Seq<(Seq<char>, JsonModel)>, key: Seq<char>, i: int)
    requires
        0 <= i <= fields.len(),
        forall|k: int| 0 <= k < i ==> (#[trigger] fields[k]).0 != key,
    ensures
        lookup_json(fields, key) == lookup_json(fields.skip(i), key),
    decreases i,
{
    if i == 0 {
        assert(fields.skip(0) =~= fields);
    } else {
        assert(fields.drop_first() =~= fields.skip(1));
        assert(forall|k: int|
            0 <= k < i - 1 ==> (#[trigger] fields.skip(1)[k]).0 == fields[k + 1].0);
        lemma_lookup_json_skip(fields.skip(1), key, i - 1);
        assert(fields.skip(1).skip(i - 1) =~= fields.skip(i));
    }
}

/// Find the first JSON tree under the given name among an operation's
/// extensions.
pub fn obj_lookup<'a>(fields: &'a Vec<(String, Json)>, key: &str) -> (r: Option<&'a Json>)
    ensures
        match r {
            Some(j) => lookup_json(fields.deep_view(), key@) == Some(j.deep_view()),
            None => lookup_json(fields.deep_view(), key@) is None,
        },
{
    let ghost fv = fields.deep_view();
    let mut i: usize = 0;
    #[verifier::loop_isolation(false)]
    while i < fields.len()
        invariant
            i <= fields.len(),
            forall|k: int| 0 <= k < i ==> (#[trigger] fv[k]).0 != key@,
        decreases fields.len() - i,
    {
        let pair = &fields[i];
        proof {
            assert(fv[i as int] == fields@[i as int].deep_view());
        }
        if str_eq(pair.0.as_str(), key) {
            proof {
                lemma_lookup_json_skip(fv, key@, i as int);
                assert(fv.skip(i as int)[0] == fv[i as int]);
            }
            return Some(&pair.1);
        }
        i = i + 1;
    }
    proof {
        lemma_lookup_json_skip(fv, key@, fields@.len() as int);
        assert(fv.skip(fields@.len() as int) =~= Seq::<(Seq<char>, JsonModel)>::empty());
    }
    None
}

/// The declared fields of an integration extension tree: the type, method,
/// target URI and passthrough behavior (all strings), and the optional
/// timeout (a non-negative integer). Anything else malformed means no
/// integration.
pub open spec fn integration_fields(j: JsonModel) -> Option<
    (Seq<char>, Seq<char>, Seq<char>, Seq<char>, Option<u64>),
> {
    if !(j is Obj) {
        None
    } else {
        let f = j->Obj_0;
        match lookup_json(f, "type"@) {
            Some(JsonModel::Str(t)) => match lookup_json(f, "httpMethod"@) {
                Some(JsonModel::Str(h)) => match lookup_json(f, "uri"@) {
                    Some(JsonModel::Str(u)) => match lookup_json(f, "passthroughBehavior"@) {
                        Some(JsonModel::Str(p)) => match lookup_json(f, "timeoutInMillis"@) {
                            None => Some((t, h, u, p, None)),
                            Some(JsonModel::PosInt(n)) => Some((t, h, u, p, Some(n))),
                            Some(_) => None,
                        },
                        _ => None,
                    },
                    _ => None,
                },
                _ => None,
            },
            _ => None,
        }
    }
}

/// Parse the integration extension from its JSON tree; the trigger and
/// target identifier are left empty until derived from the URI.
pub fn parse_integration(j: &Json) -> (r: Option<AmazonApigatewayIntegration>)
    ensures
        r is Some <==> integration_fields(j.deep_view()) is Some,
        r matches Some(a) ==> {
            let fields = integration_fields(j.deep_view()).unwrap();
            &&& a.r_type@ == fields.0
            &&& a.http_method@ == fields.1
            &&& a.uri@ == fields.2
            &&& a.pass_through_behavior@ == fields.3
            &&& a.timeout_in_millis == fields.4
            &&& a.trigger@ == Seq::<char>::empty()
            &&& a.arn@ == Seq::<char>::empty()
        },
{
    let fields = match j {
        Json::Obj(fields) => fields,
        _ => {
            return None;
        },
    };
    proof {
        assert(j.deep_view() is Obj);
        assert(j.deep_view()->Obj_0 == fields.deep_view());
    }
    let r_type = match obj_lookup(fields, "type") {
        Some(Json::Str(t)) => t.clone(),
        _ => {
            return None;
        },
    };
    let http_method = match obj_lookup(fields, "httpMethod") {
        Some(Json::Str(h)) => h.clone(),
        _ => {
            return None;
        },
    };
    let uri = match obj_lookup(fields, "uri") {
        Some(Json::Str(u)) => u.clone(),
        _ => {
            return None;
        },
    };
    let pass_through_behavior = match obj_lookup(fields, "passthroughBehavior") {
        Some(Json::Str(p)) => p.clone(),
        _ => {
            return None;
        },
    };
    let timeout_in_millis = match obj_lookup(fields, "timeoutInMillis") {
        None => None,
        Some(Json::PosInt(n)) => Some(*n),
        Some(_) => {
            return None;
        },
    };
    Some(
        AmazonApigatewayIntegration {
            r_type,
            http_method,
            uri,
            pass_through_behavior,
            timeout_in_millis,
            trigger: String::new(),
            arn: String::new(),
        },
    )
}

/// The name under which the cloud-gateway integration extension is declared.
pub open spec fn integration_extension_key() -> Seq<char> {
    "x-amazon-apigateway-integration"@
}

/// The integration an operation's extensions declare, fully derived: its
/// fields parsed from the extension tree and its trigger and target
/// identifier classified from the URI; nothing when the extension is absent
/// or malformed at either step.
pub open spec fn aws_of(extensions: Seq<(Seq<char>, JsonModel)>) -> Option<IntegrationModel> {
    match lookup_json(extensions, integration_extension_key()) {
        None => None,
        Some(j) => match integration_fields(j) {
            None => None,
            Some(fields) => match integration_update(fields.2) {
                None => None,
                Some(update) => Some(
                    IntegrationModel {
                        r_type: fields.0,
                        http_method: fields.1,
                        uri: fields.2,
                        pass_through_behavior: fields.3,
                        timeout_in_millis: fields.4,
                        trigger: update.0,
                        arn: match update.1 {
                            Some(arn) => arn,
                            None => Seq::empty(),
                        },
                    },
                ),
            },
        },
    }
}

/// Parse and classify the integration extension of an operation.
pub fn operation_integration(operation: &Operation) -> (r: Option<AmazonApigatewayIntegration>)
    ensures
        r.deep_view() == aws_of(operation.deep_view().extensions),
{
    let j = match obj_lookup(&operation.extensions, "x-amazon-apigateway-integration") {
        Some(j) => j,
        None => {
            return None;
        },
    };
    let mut integration = match parse_integration(j) {
        Some(a) => a,
        None => {
            return None;
        },
    };
    if integration.extract_supplementary_data() {
        Some(integration)
    } else {
        None
    }
}

/// Mathematical model of an [`Operator`].
pub struct OperatorModel {
    pub method: Seq<char>,
    pub summary: Option<Seq<char>>,
    pub description: Option<Seq<char>>,
    pub tags: Option<Seq<Seq<char>>>,
    pub aws: Option<IntegrationModel>,
}

/// One route operation as the comparison queries see it: the HTTP method it
/// answers to, its documentation, its tags (none rather than an empty list),
/// and its derived integration.
pub struct Operator {
    pub method: String,
    pub summary: Option<String>,
    pub description: Option<String>,
    pub tags: Option<Vec<String>>,
    pub aws: Option<AmazonApigatewayIntegration>,
}

impl DeepView for Operator {
    type V = OperatorModel;

    open spec fn deep_view(&self) -> OperatorModel {
        OperatorModel {
            method: self.method@,
            summary: self.summary.deep_view(),
            description: self.description.deep_view(),
            tags: self.tags.deep_view(),
            aws: self.aws.deep_view(),
        }
    }
}

/// The operator an operation derives to, under the given HTTP method.
pub open spec fn operator_of(op: OperationModel, method: Seq<char>) -> OperatorModel {
    OperatorModel {
        method: method,
        summary: op.summary,
        description: op.description,
        tags: if op.tags.len() == 0 {
            None
        } else {
            Some(op.tags)
        },
        aws: aws_of(op.extensions),
    }
}

impl Operator {
    /// Derive the operator of one operation: its documentation carried over,
    /// an empty tag list dropped, and the integration extension parsed and
    /// classified.
    pub fn from_operation(operation: &Operation, method: &str) -> (r: Operator)
        ensures
            r.deep_view() == operator_of(operation.deep_view(), method@),
    {
        let tags = if operation.tags.len() == 0 {
            None
        } else {
            Some(clone_strings(&operation.tags))
        };
        Operator {
            method: method.to_owned(),
            summary: match &operation.summary {
                Some(s) => Some(s.clone()),
                None => None,
            },
            description: match &operation.description {
                Some(s) => Some(s.clone()),
                None => None,
            },
            tags,
            aws: operation_integration(operation),
        }
    }
}

/// One path of the document: its URI template and the operation declared for
/// each HTTP method.
pub struct PathItem {
    pub get: Option<Operation>,
    pub post: Option<Operation>,
    pub put: Option<Operation>,
    pub delete: Option<Operation>,
    pub patch: Option<Operation>,
    pub options: Option<Operation>,
}

/// Mathematical model of a [`PathItem`].
pub struct PathItemModel {
    pub get: Option<OperationModel>,
    pub post: Option<OperationModel>,
    pub put: Option<OperationModel>,
    pub delete: Option<OperationModel>,
    pub patch: Option<OperationModel>,
    pub options: Option<OperationModel>,
}

impl DeepView for PathItem {
    type V = PathItemModel;

    open spec fn deep_view(&self) -> PathItemModel {
        PathItemModel {
            get: self.get.deep_view(),
            post: self.post.deep_view(),
            put: self.put.deep_view(),
            delete: self.delete.deep_view(),
            patch: self.patch.deep_view(),
            options: self.options.deep_view(),
        }
    }
}

fn clone_operation_opt(op: &Option<Operation>) -> (res: Option<Operation>)
    ensures
        res.deep_view() == op.deep_view(),
{
    match op {
        Some(o) => Some(o.clone()),
        None => None,
    }
}

impl Clone for PathItem {
    fn clone(&self) -> (res: Self)
        ensures
            res.deep_view() == self.deep_view(),
    {
        PathItem {
            get: clone_operation_opt(&self.get),
            post: clone_operation_opt(&self.post),
            put: clone_operation_opt(&self.put),
            delete: clone_operation_opt(&self.delete),
            patch: clone_operation_opt(&self.patch),
            options: clone_operation_opt(&self.options),
        }
    }
}

/// Mathematical model of a [`Route`].
pub struct RouteModel {
    pub path: Seq<char>,
    pub get: Option<OperatorModel>,
    pub post: Option<OperatorModel>,
    pub put: Option<OperatorModel>,
    pub delete: Option<OperatorModel>,
    pub patch: Option<OperatorModel>,
    pub options: Option<OperatorModel>,
}

/// One route with the derived operator of each HTTP method.
pub struct Route {
    pub path: String,
    pub get: Option<Operator>,
    pub post: Option<Operator>,
    pub put: Option<Operator>,
    pub delete: Option<Operator>,
    pub patch: Option<Operator>,
    pub options: Option<Operator>,
}

impl DeepView for Route {
    type V = RouteModel;

    open spec fn deep_view(&self) -> RouteModel {
        RouteModel {
            path: self.path@,
            get: self.get.deep_view(),
            post: self.post.deep_view(),
            put: self.put.deep_view(),
            delete: self.delete.deep_view(),
            patch: self.patch.deep_view(),
            options: self.options.deep_view(),
        }
    }
}

/// The operator a method's operation derives to, when one is declared.
pub open spec fn method_operator(op: Option<OperationModel>, method: Seq<char>) -> Option<
    OperatorModel,
> {
    match op {
        Some(o) => Some(operator_of(o, method)),
        None => None,
    }
}

fn derive_method(op: &Option<Operation>, method: &str) -> (r: Option<Operator>)
    ensures
        r.deep_view() == method_operator(op.deep_view(), method@),
{
    match op {
        Some(o) => Some(Operator::from_operation(o, method)),
        None => None,
    }
}

impl Route {
    /// Derive the route of one path item: each declared method's operation
    /// becomes its operator. The path is filled in by the caller that knows
    /// the URI template; it starts empty.
    pub fn from_path_item(item: &PathItem) -> (r: Route)
        ensures
            r.deep_view() == (RouteModel {
                path: Seq::empty(),
                get: method_operator(item.deep_view().get, "GET"@),
                post: method_operator(item.deep_view().post, "POST"@),
                put: method_operator(item.deep_view().put, "PUT"@),
                delete: method_operator(item.deep_view().delete, "DELETE"@),
                patch: method_operator(item.deep_view().patch, "PATCH"@),
                options: method_operator(item.deep_view().options, "OPTIONS"@),
            }),
    {
        let r = Route {
            path: String::new(),
            get: derive_method(&item.get, "GET"),
            post: derive_method(&item.post, "POST"),
            put: derive_method(&item.put, "PUT"),
            delete: derive_method(&item.delete, "DELETE"),
            patch: derive_method(&item.patch, "PATCH"),
            options: derive_method(&item.options, "OPTIONS"),
        };
        r
    }
}

/// One path of the document keyed by its URI template.
pub struct PathEntry {
    pub path: String,
    pub item: PathItem,
}

/// Mathematical model of a [`PathEntry`].
pub struct PathEntryModel {
    pub path: Seq<char>,
    pub item: PathItemModel,
}

impl DeepView for PathEntry {
    type V = PathEntryModel;

    open spec fn deep_view(&self) -> PathEntryModel {
        PathEntryModel { path: self.path@, item: self.item.deep_view() }
    }
}

impl Clone for PathEntry {
    fn clone(&self) -> (res: Self)
        ensures
            res.deep_view() == self.deep_view(),
    {
        PathEntry { path: self.path.clone(), item: self.item.clone() }
    }
}

/// A whole parsed API-specification document: its info, its paths in
/// document order, and its tags.
pub struct OpenApiDocument {
    pub info: Info,
    pub paths: Vec<PathEntry>,
    pub tags: Vec<Tag>,
}

/// Mathematical model of a [`Vertex`].
pub enum VertexModel {
    AmazonApigatewayIntegration(IntegrationModel),
    Info(InfoModel),
    Operation(OperationModel),
    Path(PathEntryModel),
    Paths(Seq<PathEntryModel>),
    Tags(Seq<TagModel>),
    Tag(TagModel),
}

/// A vertex of the API-specification domain.
pub enum Vertex {
    AmazonApigatewayIntegration(AmazonApigatewayIntegration),
    Info(Info),
    Operation(Operation),
    Path(PathEntry),
    Paths(Vec<PathEntry>),
    Tags(Vec<Tag>),
    Tag(Tag),
}

impl DeepView for Vertex {
    type V = VertexModel;

    open spec fn deep_view(&self) -> VertexModel {
        match self {
            Vertex::AmazonApigatewayIntegration(a) => VertexModel::AmazonApigatewayIntegration(
                a.deep_view(),
            ),
            Vertex::Info(i) => VertexModel::Info(i.deep_view()),
            Vertex::Operation(o) => VertexModel::Operation(o.deep_view()),
            Vertex::Path(p) => VertexModel::Path(p.deep_view()),
            Vertex::Paths(ps) => VertexModel::Paths(ps.deep_view()),
            Vertex::Tags(ts) => VertexModel::Tags(ts.deep_view()),
            Vertex::Tag(t) => VertexModel::Tag(t.deep_view()),
        }
    }
}

/// A string or its absence, as a property value.
pub open spec fn opt_str(s: Option<Seq<char>>) -> ValueModel {
    match s {
        Some(s) => ValueModel::Str(s),
        None => ValueModel::Null,
    }
}

fn opt_str_value(s: &Option<String>) -> (v: Value)
    ensures
        v.deep_view() == opt_str(s.deep_view()),
{
    match s {
        Some(s) => Value::Str(s.clone()),
        None => Value::Null,
    }
}

/// The value of one property of the document-info vertex.
pub open spec fn info_property_spec(info: InfoModel, property: Seq<char>) -> ValueModel {
    if property == "description"@ {
        opt_str(info.description)
    } else if property == "title"@ {
        ValueModel::Str(info.title)
    } else {
        ValueModel::Str(info.version)
    }
}

/// Resolve one property of the document-info vertex; the oracle only asks
/// for schema-declared properties.
pub fn resolve_info_property(info: &Info, property_name: &str) -> (v: Value)
    requires
        property_name@ == "description"@ || property_name@ == "title"@ || property_name@
            == "version"@,
    ensures
        v.deep_view() == info_property_spec(info.deep_view(), property_name@),
{
    if str_eq(property_name, "description") {
        opt_str_value(&info.description)
    } else if str_eq(property_name, "title") {
        Value::Str(info.title.clone())
    } else {
        Value::Str(info.version.clone())
    }
}

/// A list of strings as a property value.
pub open spec fn str_list(items: Seq<Seq<char>>) -> ValueModel {
    ValueModel::List(Seq::new(items.len(), |i: int| ValueModel::Str(items[i])))
}

/// The value of one property of an operation vertex.
pub open spec fn operation_property_spec(op: OperationModel, property: Seq<char>) -> ValueModel {
    if property == "description"@ {
        opt_str(op.description)
    } else if property == "summary"@ {
        opt_str(op.summary)
    } else {
        str_list(op.tags)
    }
}

/// Resolve one property of an operation vertex; the oracle only asks for
/// schema-declared properties.
pub fn resolve_operation_property(operation: &Operation, property_name: &str) -> (v: Value)
    requires
        property_name@ == "description"@ || property_name@ == "summary"@ || property_name@
            == "tags"@,
    ensures
        v.deep_view() == operation_property_spec(operation.deep_view(), property_name@),
{
    if str_eq(property_name, "description") {
        opt_str_value(&operation.description)
    } else if str_eq(property_name, "summary") {
        opt_str_value(&operation.summary)
    } else {
        let mut items: Vec<Value> = Vec::new();
        let mut i: usize = 0;
        #[verifier::loop_isolation(false)]
        while i < operation.tags.len()
            invariant
                i <= operation.tags.len(),
                items@.len() == i as int,
                forall|k: int|
                    0 <= k < i ==> (#[trigger] items@[k]).deep_view() == ValueModel::Str(
                        operation.tags.deep_view()[k],
                    ),
            decreases operation.tags.len() - i,
        {
            let tag = operation.tags[i].clone();
            proof {
                assert(tag@ == operation.tags.deep_view()[i as int]);
            }
            items.push(Value::Str(tag));
            i = i + 1;
        }
        proof {
            assert(crate::value::value_model(Value::List(items))->List_0 =~= Seq::new(
                operation.tags.deep_view().len(),
                |k: int| ValueModel::Str(operation.tags.deep_view()[k]),
            ));
            assert(crate::value::value_model(Value::List(items)) =~= str_list(
                operation.deep_view().tags,
            ));
        }
        Value::List(items)
    }
}

/// The value of one property of a tag vertex.
pub open spec fn tag_property_spec(tag: TagModel, property: Seq<char>) -> ValueModel {
    if property == "description"@ {
        opt_str(tag.description)
    } else {
        ValueModel::Str(tag.name)
    }
}

/// Resolve one property of a tag vertex; the oracle only asks for
/// schema-declared properties.
pub fn resolve_tag_property(tag: &Tag, property_name: &str) -> (v: Value)
    requires
        property_name@ == "description"@ || property_name@ == "name"@,
    ensures
        v.deep_view() == tag_property_spec(tag.deep_view(), property_name@),
{
    if str_eq(property_name, "description") {
        opt_str_value(&tag.description)
    } else {
        Value::Str(tag.name.clone())
    }
}

/// The value of one property of an integration vertex.
pub open spec fn integration_property_spec(a: IntegrationModel, property: Seq<char>) -> ValueModel {
    if property == "arn"@ {
        ValueModel::Str(a.arn)
    } else if property == "httpMethod"@ {
        ValueModel::Str(a.http_method)
    } else if property == "passthroughBehavior"@ {
        ValueModel::Str(a.pass_through_behavior)
    } else if property == "timeoutInMillis"@ {
        match a.timeout_in_millis {
            Some(n) => ValueModel::Uint64(n),
            None => ValueModel::Null,
        }
    } else if property == "trigger"@ {
        ValueModel::Str(a.trigger)
    } else if property == "type"@ {
        ValueModel::Str(a.r_type)
    } else {
        ValueModel::Str(a.uri)
    }
}

/// Resolve one property of an integration vertex; the oracle only asks for
/// schema-declared properties.
pub fn resolve_amazon_apigateway_integration_property(
    integration: &AmazonApigatewayIntegration,
    property_name: &str,
) -> (v: Value)
    requires
        property_name@ == "arn"@ || property_name@ == "httpMethod"@ || property_name@
            == "passthroughBehavior"@ || property_name@ == "timeoutInMillis"@ || property_name@
            == "trigger"@ || property_name@ == "type"@ || property_name@ == "uri"@,
    ensures
        v.deep_view() == integration_property_spec(integration.deep_view(), property_name@),
{
    if str_eq(property_name, "arn") {
        Value::Str(integration.arn.clone())
    } else if str_eq(property_name, "httpMethod") {
        Value::Str(integration.http_method.clone())
    } else if str_eq(property_name, "passthroughBehavior") {
        Value::Str(integration.pass_through_behavior.clone())
    } else if str_eq(property_name, "timeoutInMillis") {
        match integration.timeout_in_millis {
            Some(n) => Value::Uint64(n),
            None => Value::Null,
        }
    } else if str_eq(property_name, "trigger") {
        Value::Str(integration.trigger.clone())
    } else if str_eq(property_name, "type") {
        Value::Str(integration.r_type.clone())
    } else {
        Value::Str(integration.uri.clone())
    }
}

/// The value of the one property of a path vertex: its URI template.
pub open spec fn path_property_spec(entry: PathEntryModel) -> ValueModel {
    ValueModel::Str(entry.path)
}

/// Resolve the one property of a path vertex.
pub fn resolve_path_property(entry: &PathEntry, property_name: &str) -> (v: Value)
    requires
        property_name@ == "path"@,
    ensures
        v.deep_view() == path_property_spec(entry.deep_view()),
{
    Value::Str(entry.path.clone())
}

/// The operation a path vertex's method edge leads to, when declared.
pub open spec fn path_edge_spec(item: PathItemModel, edge: Seq<char>) -> Option<OperationModel> {
    if edge == "get"@ {
        item.get
    } else if edge == "post"@ {
        item.post
    } else if edge == "put"@ {
        item.put
    } else if edge == "delete"@ {
        item.delete
    } else if edge == "patch"@ {
        item.patch
    } else {
        item.options
    }
}

/// Resolve a method edge of a path vertex: the declared operation is the one
/// neighbor, an undeclared method has none. The oracle only asks for
/// schema-declared edges.
pub fn resolve_path_edge(entry: &PathEntry, edge_name: &str) -> (neighbors: Vec<Vertex>)
    requires
        edge_name@ == "get"@ || edge_name@ == "post"@ || edge_name@ == "put"@ || edge_name@
            == "delete"@ || edge_name@ == "patch"@ || edge_name@ == "options"@,
    ensures
        neighbors.deep_view() =~= (match path_edge_spec(entry.deep_view().item, edge_name@) {
            Some(op) => seq![VertexModel::Operation(op)],
            None => Seq::<VertexModel>::empty(),
        }),
{
    let op = if str_eq(edge_name, "get") {
        &entry.item.get
    } else if str_eq(edge_name, "post") {
        &entry.item.post
    } else if str_eq(edge_name, "put") {
        &entry.item.put
    } else if str_eq(edge_name, "delete") {
        &entry.item.delete
    } else if str_eq(edge_name, "patch") {
        &entry.item.patch
    } else {
        &entry.item.options
    };
    let mut neighbors: Vec<Vertex> = Vec::new();
    match op {
        Some(o) => {
            neighbors.push(Vertex::Operation(o.clone()));
        },
        None => {},
    }
    neighbors
}

/// Resolve the integration edge of an operation vertex: the parsed,
/// classified integration is the one neighbor; an absent or malformed
/// extension has none.
pub fn resolve_operation_edge(operation: &Operation, edge_name: &str) -> (neighbors: Vec<Vertex>)
    requires
        edge_name@ == "xAmazonApigatewayIntegration"@,
    ensures
        neighbors.deep_view() =~= (match aws_of(operation.deep_view().extensions) {
            Some(a) => seq![VertexModel::AmazonApigatewayIntegration(a)],
            None => Seq::<VertexModel>::empty(),
        }),
{
    let mut neighbors: Vec<Vertex> = Vec::new();
    match operation_integration(operation) {
        Some(a) => {
            neighbors.push(Vertex::AmazonApigatewayIntegration(a));
        },
        None => {},
    }
    neighbors
}

/// The starting info edge: the document's info is the one starting vertex.
pub fn info(doc: &OpenApiDocument) -> (vertices: Vec<Vertex>)
    ensures
        vertices.deep_view() =~= seq![VertexModel::Info(doc.info.deep_view())],
{
    let mut vertices: Vec<Vertex> = Vec::new();
    vertices.push(Vertex::Info(doc.info.clone()));
    vertices
}

/// The first path entry carrying the given URI template.
pub open spec fn path_lookup(paths: Seq<PathEntryModel>, template: Seq<char>) -> Option<
    PathEntryModel,
>
    decreases paths.len(),
{
    if paths.len() == 0 {
        None
    } else if paths[0].path == template {
        Some(paths[0])
    } else {
        path_lookup(paths.drop_first(), template)
    }
}

/// Looking a template up past a prefix without it looks it up in the rest.
proof fn lemma_path_lookup_skip(paths: Seq<PathEntryModel>, template: Seq<char>, i: int)
    requires
        0 <= i <= paths.len(),
        forall|k: int| 0 <= k < i ==> (#[trigger] paths[k]).path != template,
    ensures
        path_lookup(paths, template) == path_lookup(paths.skip(i), template),
    decreases i,
{
    if i == 0 {
        assert(paths.skip(0) =~= paths);
    } else {
        assert(paths.drop_first() =~= paths.skip(1));
        assert(forall|k: int|
            0 <= k < i - 1 ==> (#[trigger] paths.skip(1)[k]).path == paths[k + 1].path);
        lemma_path_lookup_skip(paths.skip(1), template, i - 1);
        assert(paths.skip(1).skip(i - 1) =~= paths.skip(i));
    }
}

/// The starting path-lookup edge: the first path entry with the given URI
/// template is the one starting vertex; a template the document does not
/// declare yields none.
pub fn path(template: &str, doc: &OpenApiDocument) -> (vertices: Vec<Vertex>)
    ensures
        vertices.deep_view() =~= (match path_lookup(doc.paths.deep_view(), template@) {
            Some(entry) => seq![VertexModel::Path(entry)],
            None => Seq::<VertexModel>::empty(),
        }),
{
    let ghost pv = doc.paths.deep_view();
    let mut i: usize = 0;
    #[verifier::loop_isolation(false)]
    while i < doc.paths.len()
        invariant
            i <= doc.paths.len(),
            forall|k: int| 0 <= k < i ==> (#[trigger] pv[k]).path != template@,
        decreases doc.paths.len() - i,
    {
        let entry = &doc.paths[i];
        proof {
            assert(pv[i as int] == doc.paths@[i as int].deep_view());
        }
        if str_eq(entry.path.as_str(), template) {
            let mut vertices: Vec<Vertex> = Vec::new();
            vertices.push(Vertex::Path(entry.clone()));
            proof {
                lemma_path_lookup_skip(pv, template@, i as int);
                assert(pv.skip(i as int)[0] == pv[i as int]);
                assert(path_lookup(pv, template@) == Some(pv[i as int]));
            }
            return vertices;
        }
        i = i + 1;
    }
    proof {
        lemma_path_lookup_skip(pv, template@, doc.paths@.len() as int);
        assert(pv.skip(doc.paths@.len() as int) =~= Seq::<PathEntryModel>::empty());
    }
    Vec::new()
}

/// Copy the document's path entries.
fn clone_paths(paths: &Vec<PathEntry>) -> (out: Vec<PathEntry>)
    ensures
        out.deep_view() == paths.deep_view(),
{
    let mut out: Vec<PathEntry> = Vec::new();
    let mut i: usize = 0;
    #[verifier::loop_isolation(false)]
    while i < paths.len()
        invariant
            i <= paths.len(),
            out.deep_view() =~= paths.deep_view().take(i as int),
        decreases paths.len() - i,
    {
        out.push(paths[i].clone());
        i = i + 1;
    }
    proof {
        assert(out.deep_view() =~= paths.deep_view());
    }
    out
}

/// Copy the document's tags.
fn clone_tags(tags: &Vec<Tag>) -> (out: Vec<Tag>)
    ensures
        out.deep_view() == tags.deep_view(),
{
    let mut out: Vec<Tag> = Vec::new();
    let mut i: usize = 0;
    #[verifier::loop_isolation(false)]
    while i < tags.len()
        invariant
            i <= tags.len(),
            out.deep_view() =~= tags.deep_view().take(i as int),
        decreases tags.len() - i,
    {
        out.push(tags[i].clone());
        i = i + 1;
    }
    proof {
        assert(out.deep_view() =~= tags.deep_view());
    }
    out
}

/// The starting paths edge: all the document's paths, as one vertex.
pub fn paths(doc: &OpenApiDocument) -> (vertices: Vec<Vertex>)
    ensures
        vertices.deep_view() =~= seq![VertexModel::Paths(doc.paths.deep_view())],
{
    let mut vertices: Vec<Vertex> = Vec::new();
    vertices.push(Vertex::Paths(clone_paths(&doc.paths)));
    vertices
}

/// The starting tags edge: all the document's tags, as one vertex.
pub fn tags(doc: &OpenApiDocument) -> (vertices: Vec<Vertex>)
    ensures
        vertices.deep_view() =~= seq![VertexModel::Tags(doc.tags.deep_view())],
{
    let mut vertices: Vec<Vertex> = Vec::new();
    vertices.push(Vertex::Tags(clone_tags(&doc.tags)));
    vertices
}

} // verus!
