//! The parts of an OpenAPI document that the diff engine reads.
//!
//! Every type has a view: the same data with texts as `Seq<char>` and lists
//! as `Seq`. The reports of the engine are stated over these views.

use crate::diff::keyed::{has_key, item_of};
use indexmap::IndexMap;
use vstd::prelude::*;

verus! {

/// The text of an optional string attribute.
pub open spec fn text_of(value: Option<String>) -> Option<Seq<char>> {
    match value {
        Some(text) => Some(text@),
        None => None,
    }
}

/// The texts of a list of strings, in order.
pub open spec fn texts_of(values: Seq<String>) -> Seq<Seq<char>> {
    values.map_values(|text: String| text@)
}

/// The views of a list of values, in order.
pub open spec fn views_of<T: View>(values: Seq<T>) -> Seq<T::V> {
    values.map_values(|value: T| value@)
}

/// The views of a list of keyed entries, in order.
pub open spec fn pairs_of<K: View, T: View>(entries: Seq<(K, T)>) -> Seq<(K::V, T::V)> {
    entries.map_values(|entry: (K, T)| (entry.0@, entry.1@))
}

/// The view of a value that may be absent.
pub open spec fn view_of<T: View>(value: Option<T>) -> Option<T::V> {
    match value {
        Some(inner) => Some(inner@),
        None => None,
    }
}

/// A copy of an optional string.
pub fn copy_text(value: &Option<String>) -> (copy: Option<String>)
    ensures
        copy == *value,
{
    match value {
        Some(text) => Some(text.clone()),
        None => None,
    }
}

/// A copy of a list of strings.
pub fn copy_texts(values: &Vec<String>) -> (copy: Vec<String>)
    ensures
        copy@ == values@,
{
    let mut copy: Vec<String> = Vec::new();
    let mut i: usize = 0;
    while i < values.len()
        invariant
            i <= values.len(),
            copy@ == values@.take(i as int),
        decreases values.len() - i,
    {
        copy.push(values[i].clone());
        assert(copy@ =~= values@.take(i + 1));
        i += 1;
    }
    assert(values@.take(values@.len() as int) =~= values@);
    copy
}

/// Either a `$ref` to a component defined elsewhere, or the component itself.
#[derive(Debug)]
pub enum ReferenceOr<T> {
    Reference { reference: String },
    Item(T),
}

/// The mathematical content of a [`ReferenceOr`].
pub enum ReferenceOrView<V> {
    Reference { reference: Seq<char> },
    Item(V),
}

impl<T: View> View for ReferenceOr<T> {
    type V = ReferenceOrView<T::V>;

    open spec fn view(&self) -> ReferenceOrView<T::V> {
        match *self {
            ReferenceOr::Reference { reference } => ReferenceOrView::Reference {
                reference: reference@,
            },
            ReferenceOr::Item(item) => ReferenceOrView::Item(item@),
        }
    }
}

/// Where a parameter is carried in a request.
#[derive(Debug, Clone, Copy, PartialEq, Eq, Structural)]
pub enum ParameterLocation {
    Query,
    Header,
    Path,
    Cookie,
}

/// One parameter of an operation, identified by its name and location.
#[derive(Debug)]
pub struct Parameter {
    pub name: String,
    pub location: ParameterLocation,
    pub description: Option<String>,
    pub required: bool,
}

/// The mathematical content of a [`Parameter`].
pub struct ParameterView {
    pub name: Seq<char>,
    pub location: ParameterLocation,
    pub description: Option<Seq<char>>,
    pub required: bool,
}

impl View for Parameter {
    type V = ParameterView;

    open spec fn view(&self) -> ParameterView {
        ParameterView {
            name: self.name@,
            location: self.location,
            description: text_of(self.description),
            required: self.required,
        }
    }
}

impl Clone for Parameter {
    fn clone(&self) -> (copy: Self)
        ensures
            copy@ == self@,
    {
        Parameter {
            name: self.name.clone(),
            location: self.location,
            description: copy_text(&self.description),
            required: self.required,
        }
    }
}

impl Clone for ReferenceOr<Parameter> {
    fn clone(&self) -> (copy: Self)
        ensures
            copy@ == self@,
    {
        match self {
            ReferenceOr::Reference { reference } => ReferenceOr::Reference {
                reference: reference.clone(),
            },
            ReferenceOr::Item(item) => ReferenceOr::Item(item.clone()),
        }
    }
}

/// The request body of an operation; `content` lists its media types.
#[derive(Debug)]
pub struct RequestBody {
    pub description: Option<String>,
    pub content: Vec<String>,
    pub required: bool,
}

/// The mathematical content of a [`RequestBody`].
pub struct RequestBodyView {
    pub description: Option<Seq<char>>,
    pub content: Seq<Seq<char>>,
    pub required: bool,
}

impl View for RequestBody {
    type V = RequestBodyView;

    open spec fn view(&self) -> RequestBodyView {
        RequestBodyView {
            description: text_of(self.description),
            content: texts_of(self.content@),
            required: self.required,
        }
    }
}

impl Default for RequestBody {
    fn default() -> (body: Self)
        ensures
            body@ == (RequestBodyView { description: None, content: Seq::empty(), required: false }),
    {
        let body = RequestBody { description: None, content: Vec::new(), required: false };
        assert(texts_of(body.content@) =~= Seq::empty());
        body
    }
}

impl Clone for RequestBody {
    fn clone(&self) -> (copy: Self)
        ensures
            copy@ == self@,
    {
        RequestBody {
            description: copy_text(&self.description),
            content: copy_texts(&self.content),
            required: self.required,
        }
    }
}

impl Clone for ReferenceOr<RequestBody> {
    fn clone(&self) -> (copy: Self)
        ensures
            copy@ == self@,
    {
        match self {
            ReferenceOr::Reference { reference } => ReferenceOr::Reference {
                reference: reference.clone(),
            },
            ReferenceOr::Item(item) => ReferenceOr::Item(item.clone()),
        }
    }
}

/// One endpoint: an HTTP method on a path.
#[derive(Debug)]
pub struct Operation {
    pub tags: Vec<String>,
    pub summary: Option<String>,
    pub description: Option<String>,
    pub operation_id: Option<String>,
    pub parameters: Vec<ReferenceOr<Parameter>>,
    pub request_body: Option<ReferenceOr<RequestBody>>,
}

/// The mathematical content of an [`Operation`].
pub struct OperationView {
    pub tags: Seq<Seq<char>>,
    pub summary: Option<Seq<char>>,
    pub description: Option<Seq<char>>,
    pub operation_id: Option<Seq<char>>,
    pub parameters: Seq<ReferenceOrView<ParameterView>>,
    pub request_body: Option<ReferenceOrView<RequestBodyView>>,
}

impl View for Operation {
    type V = OperationView;

    open spec fn view(&self) -> OperationView {
        OperationView {
            tags: texts_of(self.tags@),
            summary: text_of(self.summary),
            description: text_of(self.description),
            operation_id: text_of(self.operation_id),
            parameters: views_of(self.parameters@),
            request_body: view_of(self.request_body),
        }
    }
}

/// The operation that declares nothing.
pub open spec fn empty_operation() -> OperationView {
    OperationView {
        tags: Seq::empty(),
        summary: None,
        description: None,
        operation_id: None,
        parameters: Seq::empty(),
        request_body: None,
    }
}

impl Default for Operation {
    fn default() -> (operation: Self)
        ensures
            operation@ == empty_operation(),
    {
        let operation = Operation {
            tags: Vec::new(),
            summary: None,
            description: None,
            operation_id: None,
            parameters: Vec::new(),
            request_body: None,
        };
        assert(texts_of(operation.tags@) =~= Seq::empty());
        assert(views_of(operation.parameters@) =~= Seq::empty());
        operation
    }
}

/// A copy of a list of parameters.
pub fn copy_parameters(values: &Vec<ReferenceOr<Parameter>>) -> (copy: Vec<ReferenceOr<Parameter>>)
    ensures
        views_of(copy@) == views_of(values@),
{
    let mut copy: Vec<ReferenceOr<Parameter>> = Vec::new();
    let mut i: usize = 0;
    while i < values.len()
        invariant
            i <= values.len(),
            copy@.len() == i,
            forall|j: int| 0 <= j < i ==> copy@[j]@ == values@[j]@,
        decreases values.len() - i,
    {
        copy.push(values[i].clone());
        i += 1;
    }
    assert(views_of(copy@) =~= views_of(values@));
    copy
}

impl Clone for Operation {
    fn clone(&self) -> (copy: Self)
        ensures
            copy@ == self@,
    {
        let request_body = match &self.request_body {
            Some(body) => Some(body.clone()),
            None => None,
        };
        Operation {
            tags: copy_texts(&self.tags),
            summary: copy_text(&self.summary),
            description: copy_text(&self.description),
            operation_id: copy_text(&self.operation_id),
            parameters: copy_parameters(&self.parameters),
            request_body,
        }
    }
}

/// The HTTP methods under which a path item can declare an operation.
#[derive(Debug, Clone, Copy, PartialEq, Eq, Structural)]
pub enum HttpMethod {
    Get,
    Put,
    Post,
    Delete,
    Options,
    Head,
    Patch,
    Trace,
}

impl View for HttpMethod {
    type V = HttpMethod;

    open spec fn view(&self) -> HttpMethod {
        *self
    }
}

/// The operations defined at one path, at most one per HTTP method.
#[derive(Debug)]
pub struct PathItem {
    pub get: Option<Operation>,
    pub put: Option<Operation>,
    pub post: Option<Operation>,
    pub delete: Option<Operation>,
    pub options: Option<Operation>,
    pub head: Option<Operation>,
    pub patch: Option<Operation>,
    pub trace: Option<Operation>,
}

/// The mathematical content of a [`PathItem`].
pub struct PathItemView {
    pub get: Option<OperationView>,
    pub put: Option<OperationView>,
    pub post: Option<OperationView>,
    pub delete: Option<OperationView>,
    pub options: Option<OperationView>,
    pub head: Option<OperationView>,
    pub patch: Option<OperationView>,
    pub trace: Option<OperationView>,
}

impl PathItemView {
    /// The operation declared under `method`, if any.
    pub open spec fn operation(self, method: HttpMethod) -> Option<OperationView> {
        match method {
            HttpMethod::Get => self.get,
            HttpMethod::Put => self.put,
            HttpMethod::Post => self.post,
            HttpMethod::Delete => self.delete,
            HttpMethod::Options => self.options,
            HttpMethod::Head => self.head,
            HttpMethod::Patch => self.patch,
            HttpMethod::Trace => self.trace,
        }
    }
}

impl View for PathItem {
    type V = PathItemView;

    open spec fn view(&self) -> PathItemView {
        PathItemView {
            get: view_of(self.get),
            put: view_of(self.put),
            post: view_of(self.post),
            delete: view_of(self.delete),
            options: view_of(self.options),
            head: view_of(self.head),
            patch: view_of(self.patch),
            trace: view_of(self.trace),
        }
    }
}

/// A copy of an operation that may be absent.
pub fn copy_operation(value: &Option<Operation>) -> (copy: Option<Operation>)
    ensures
        view_of(copy) == view_of(*value),
{
    match value {
        Some(operation) => Some(operation.clone()),
        None => None,
    }
}

impl PathItem {
    /// The operation declared under `method`, if any.
    pub fn operation(&self, method: HttpMethod) -> (found: Option<&Operation>)
        ensures
            view_of(found) == self@.operation(method),
    {
        match method {
            HttpMethod::Get => self.get.as_ref(),
            HttpMethod::Put => self.put.as_ref(),
            HttpMethod::Post => self.post.as_ref(),
            HttpMethod::Delete => self.delete.as_ref(),
            HttpMethod::Options => self.options.as_ref(),
            HttpMethod::Head => self.head.as_ref(),
            HttpMethod::Patch => self.patch.as_ref(),
            HttpMethod::Trace => self.trace.as_ref(),
        }
    }
}

impl Default for PathItem {
    fn default() -> (item: Self)
        ensures
            forall|method: HttpMethod| item@.operation(method) is None,
    {
        PathItem {
            get: None,
            put: None,
            post: None,
            delete: None,
            options: None,
            head: None,
            patch: None,
            trace: None,
        }
    }
}

impl Clone for PathItem {
    fn clone(&self) -> (copy: Self)
        ensures
            copy@ == self@,
    {
        PathItem {
            get: copy_operation(&self.get),
            put: copy_operation(&self.put),
            post: copy_operation(&self.post),
            delete: copy_operation(&self.delete),
            options: copy_operation(&self.options),
            head: copy_operation(&self.head),
            patch: copy_operation(&self.patch),
            trace: copy_operation(&self.trace),
        }
    }
}

impl Clone for ReferenceOr<PathItem> {
    fn clone(&self) -> (copy: Self)
        ensures
            copy@ == self@,
    {
        match self {
            ReferenceOr::Reference { reference } => ReferenceOr::Reference {
                reference: reference.clone(),
            },
            ReferenceOr::Item(item) => ReferenceOr::Item(item.clone()),
        }
    }
}

/// `indexmap::IndexMap`, a hash table that keeps its entries in the order
/// in which their keys were first inserted. Nothing inside it is visible to
/// the verifier.
#[verifier::external_type_specification]
#[verifier::external_body]
#[verifier::reject_recursive_types(K)]
#[verifier::reject_recursive_types(V)]
#[verifier::reject_recursive_types(S)]
pub struct ExIndexMap<K, V, S>(IndexMap<K, V, S>);

/// The path table of a document: path to path item, in document order.
pub type Paths = IndexMap<String, ReferenceOr<PathItem>>;

/// What a path table holds: its entries in iteration order, each the text of
/// a path with the view of the path item under it.
pub uninterp spec fn path_entries(paths: Paths) -> Seq<(Seq<char>, ReferenceOrView<PathItemView>)>;

/// `IndexMap::len`: the number of entries of the table.
#[verifier::external_body]
pub(crate) fn path_count(paths: &Paths) -> (count: usize)
    ensures
        count == path_entries(*paths).len(),
{
    paths.len()
}

/// `IndexMap::get_index`: the entry at a position of the iteration order,
/// or nothing where the position is not below the number of entries. The
/// contract also claims what makes the table a map: no entry at another
/// position has the key of the entry handed out.
#[verifier::external_body]
pub(crate) fn path_at(paths: &Paths, position: usize) -> (entry: Option<
    (&String, &ReferenceOr<PathItem>),
>)
    ensures
        match entry {
            Some((path, item)) => {
                &&& position < path_entries(*paths).len()
                &&& path_entries(*paths)[position as int] == (path@, item@)
                &&& forall|j: int|
                    0 <= j < path_entries(*paths).len() && j != position ==> (
                    #[trigger] path_entries(*paths)[j]).0 != path@
            },
            None => position >= path_entries(*paths).len(),
        },
{
    paths.get_index(position)
}

/// `IndexMap::get`: the item stored under a key, or nothing where no entry
/// has that key. Keys are strings and are equal when their texts are.
#[verifier::external_body]
pub(crate) fn path_lookup<'a>(paths: &'a Paths, path: &String) -> (found: Option<
    &'a ReferenceOr<PathItem>,
>)
    ensures
        match found {
            Some(item) => has_key(path_entries(*paths), path@) && item_of(
                path_entries(*paths),
                path@,
            ) == item@,
            None => !has_key(path_entries(*paths), path@),
        },
{
    paths.get(path)
}

} // verus!
