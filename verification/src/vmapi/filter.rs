//! The filter of a list query: which machines to ask the provider for.

use crate::vmapi::brand::Brand;
use crate::vmapi::state::State;
use chrono::NaiveDateTime;
use serde_json::Value;
use uuid::Uuid;
use vstd::prelude::*;

verus! {

/// One thing a list query can select machines by.
#[derive(Clone, Copy, PartialEq, Eq, Debug, Structural)]
pub enum Criterion {
    Alias,
    BillingId,
    Brand,
    CreateTimestamp,
    Docker,
    Fields,
    ImageUuid,
    InternalMetadata,
    OwnerUuid,
    Uuid,
    Ram,
    ServerUuid,
    State,
    TagKey,
    Uuids,
}

impl Criterion {
    /// The key under which the criterion goes into a query.
    pub open spec fn spec_as_str(self) -> Seq<char> {
        match self {
            Criterion::Alias => "alias"@,
            Criterion::BillingId => "billing_id"@,
            Criterion::Brand => "brand"@,
            Criterion::CreateTimestamp => "create_timestamp"@,
            Criterion::Docker => "docker"@,
            Criterion::Fields => "fields"@,
            Criterion::ImageUuid => "image_uuid"@,
            Criterion::InternalMetadata => "internal_metadata"@,
            Criterion::OwnerUuid => "owner_uuid"@,
            Criterion::Uuid => "uuid"@,
            Criterion::Ram => "ram"@,
            Criterion::ServerUuid => "server_uuid"@,
            Criterion::State => "state"@,
            Criterion::TagKey => "tag_key"@,
            Criterion::Uuids => "uuids"@,
        }
    }

    /// The key under which the criterion goes into a query.
    pub fn as_str(&self) -> (r: &'static str)
        ensures
            r@ == self.spec_as_str(),
    {
        match *self {
            Criterion::Alias => "alias",
            Criterion::BillingId => "billing_id",
            Criterion::Brand => "brand",
            Criterion::CreateTimestamp => "create_timestamp",
            Criterion::Docker => "docker",
            Criterion::Fields => "fields",
            Criterion::ImageUuid => "image_uuid",
            Criterion::InternalMetadata => "internal_metadata",
            Criterion::OwnerUuid => "owner_uuid",
            Criterion::Uuid => "uuid",
            Criterion::Ram => "ram",
            Criterion::ServerUuid => "server_uuid",
            Criterion::State => "state",
            Criterion::TagKey => "tag_key",
            Criterion::Uuids => "uuids",
        }
    }
}

impl DeepView for Criterion {
    type V = Criterion;

    open spec fn deep_view(&self) -> Criterion {
        *self
    }
}

/// The value of a criterion that is set.
#[derive(Debug, PartialEq)]
pub enum CriterionValue {
    Text(String),
    Id(Uuid),
    Brand(Brand),
    Timestamp(NaiveDateTime),
    Flag(bool),
    Number(i32),
    Document(Value),
    State(State),
}

/// What a `CriterionValue` holds.
pub enum CriterionValueView {
    Text(Seq<char>),
    Id(Uuid),
    Brand(Brand),
    Timestamp(NaiveDateTime),
    Flag(bool),
    Number(i32),
    Document(Value),
    State(State),
}

impl View for CriterionValue {
    type V = CriterionValueView;

    open spec fn view(&self) -> CriterionValueView {
        match self {
            CriterionValue::Text(t) => CriterionValueView::Text(t@),
            CriterionValue::Id(u) => CriterionValueView::Id(*u),
            CriterionValue::Brand(b) => CriterionValueView::Brand(*b),
            CriterionValue::Timestamp(t) => CriterionValueView::Timestamp(*t),
            CriterionValue::Flag(f) => CriterionValueView::Flag(*f),
            CriterionValue::Number(n) => CriterionValueView::Number(*n),
            CriterionValue::Document(d) => CriterionValueView::Document(*d),
            CriterionValue::State(s) => CriterionValueView::State(*s),
        }
    }
}

impl DeepView for CriterionValue {
    type V = CriterionValueView;

    open spec fn deep_view(&self) -> CriterionValueView {
        self@
    }
}

impl Clone for CriterionValue {
    fn clone(&self) -> (r: Self)
        ensures
            r@ == self@,
    {
        match self {
            CriterionValue::Text(t) => CriterionValue::Text(t.clone()),
            CriterionValue::Id(u) => CriterionValue::Id(*u),
            CriterionValue::Brand(b) => CriterionValue::Brand(*b),
            CriterionValue::Timestamp(t) => CriterionValue::Timestamp(*t),
            CriterionValue::Flag(f) => CriterionValue::Flag(*f),
            CriterionValue::Number(n) => CriterionValue::Number(*n),
            CriterionValue::Document(d) => CriterionValue::Document(d.clone()),
            CriterionValue::State(s) => CriterionValue::State(*s),
        }
    }
}

/// The filter of a list query: for each criterion either a value to select by,
/// or nothing. It is built by chaining setters on `ListVmInput::new()`; each
/// setter takes the filter and hands back the one with that criterion changed.
#[derive(Debug, PartialEq)]
pub struct ListVmInput {
    alias: Option<String>,
    billing_id: Option<Uuid>,
    brand: Option<Brand>,
    create_timestamp: Option<NaiveDateTime>,
    docker: Option<bool>,
    fields: Option<String>,
    image_uuid: Option<Uuid>,
    internal_metadata: Option<Value>,
    owner_uuid: Option<Uuid>,
    uuid: Option<Uuid>,
    ram: Option<i32>,
    server_uuid: Option<Uuid>,
    state: Option<State>,
    tag_key: Option<String>,
    uuids: Option<String>,
}

/// What a `ListVmInput` holds.
pub struct ListVmInputView {
    pub alias: Option<Seq<char>>,
    pub billing_id: Option<Uuid>,
    pub brand: Option<Brand>,
    pub create_timestamp: Option<NaiveDateTime>,
    pub docker: Option<bool>,
    pub fields: Option<Seq<char>>,
    pub image_uuid: Option<Uuid>,
    pub internal_metadata: Option<Value>,
    pub owner_uuid: Option<Uuid>,
    pub uuid: Option<Uuid>,
    pub ram: Option<i32>,
    pub server_uuid: Option<Uuid>,
    pub state: Option<State>,
    pub tag_key: Option<Seq<char>>,
    pub uuids: Option<Seq<char>>,
}

impl ListVmInputView {
    /// The filter that selects by nothing.
    pub open spec fn unset() -> ListVmInputView {
        ListVmInputView {
            alias: None,
            billing_id: None,
            brand: None,
            create_timestamp: None,
            docker: None,
            fields: None,
            image_uuid: None,
            internal_metadata: None,
            owner_uuid: None,
            uuid: None,
            ram: None,
            server_uuid: None,
            state: None,
            tag_key: None,
            uuids: None,
        }
    }

    /// The value that the filter selects by under `criterion`, if it does.
    pub open spec fn value_of(self, criterion: Criterion) -> Option<CriterionValueView> {
        match criterion {
            Criterion::Alias => match self.alias {
                Some(v) => Some(CriterionValueView::Text(v)),
                None => None,
            },
            Criterion::BillingId => match self.billing_id {
                Some(v) => Some(CriterionValueView::Id(v)),
                None => None,
            },
            Criterion::Brand => match self.brand {
                Some(v) => Some(CriterionValueView::Brand(v)),
                None => None,
            },
            Criterion::CreateTimestamp => match self.create_timestamp {
                Some(v) => Some(CriterionValueView::Timestamp(v)),
                None => None,
            },
            Criterion::Docker => match self.docker {
                Some(v) => Some(CriterionValueView::Flag(v)),
                None => None,
            },
            Criterion::Fields => match self.fields {
                Some(v) => Some(CriterionValueView::Text(v)),
                None => None,
            },
            Criterion::ImageUuid => match self.image_uuid {
                Some(v) => Some(CriterionValueView::Id(v)),
                None => None,
            },
            Criterion::InternalMetadata => match self.internal_metadata {
                Some(v) => Some(CriterionValueView::Document(v)),
                None => None,
            },
            Criterion::OwnerUuid => match self.owner_uuid {
                Some(v) => Some(CriterionValueView::Id(v)),
                None => None,
            },
            Criterion::Uuid => match self.uuid {
                Some(v) => Some(CriterionValueView::Id(v)),
                None => None,
            },
            Criterion::Ram => match self.ram {
                Some(v) => Some(CriterionValueView::Number(v)),
                None => None,
            },
            Criterion::ServerUuid => match self.server_uuid {
                Some(v) => Some(CriterionValueView::Id(v)),
                None => None,
            },
            Criterion::State => match self.state {
                Some(v) => Some(CriterionValueView::State(v)),
                None => None,
            },
            Criterion::TagKey => match self.tag_key {
                Some(v) => Some(CriterionValueView::Text(v)),
                None => None,
            },
            Criterion::Uuids => match self.uuids {
                Some(v) => Some(CriterionValueView::Text(v)),
                None => None,
            },
        }
    }

    /// Whether this filter is `base` but for what it selects by under `criterion`.
    pub open spec fn differs_only_at(self, base: ListVmInputView, criterion: Criterion) -> bool {
        forall|other: Criterion|
            other != criterion ==> #[trigger] self.value_of(other) == base.value_of(other)
    }

    /// What `criterion` adds to a query: its pair where it is set, nothing
    /// where it is not.
    pub open spec fn entry(self, criterion: Criterion) -> Seq<(Criterion, CriterionValueView)> {
        match self.value_of(criterion) {
            Some(v) => seq![(criterion, v)],
            None => Seq::empty(),
        }
    }

    /// The filter as the flat list of pairs that go into a query: one pair for
    /// each criterion that is set, none for one that is not.
    pub open spec fn criteria(self) -> Seq<(Criterion, CriterionValueView)> {
        self.entry(Criterion::Alias)
            + self.entry(Criterion::BillingId)
            + self.entry(Criterion::Brand)
            + self.entry(Criterion::CreateTimestamp)
            + self.entry(Criterion::Docker)
            + self.entry(Criterion::Fields)
            + self.entry(Criterion::ImageUuid)
            + self.entry(Criterion::InternalMetadata)
            + self.entry(Criterion::OwnerUuid)
            + self.entry(Criterion::Uuid)
            + self.entry(Criterion::Ram)
            + self.entry(Criterion::ServerUuid)
            + self.entry(Criterion::State)
            + self.entry(Criterion::TagKey)
            + self.entry(Criterion::Uuids)
    }
}

impl View for ListVmInput {
    type V = ListVmInputView;

    closed spec fn view(&self) -> ListVmInputView {
        ListVmInputView {
            alias: self.alias.deep_view(),
            billing_id: self.billing_id,
            brand: self.brand,
            create_timestamp: self.create_timestamp,
            docker: self.docker,
            fields: self.fields.deep_view(),
            image_uuid: self.image_uuid,
            internal_metadata: self.internal_metadata,
            owner_uuid: self.owner_uuid,
            uuid: self.uuid,
            ram: self.ram,
            server_uuid: self.server_uuid,
            state: self.state,
            tag_key: self.tag_key.deep_view(),
            uuids: self.uuids.deep_view(),
        }
    }
}

impl Clone for ListVmInput {
    fn clone(&self) -> (r: Self)
        ensures
            r@ == self@,
    {
        ListVmInput {
            alias: self.alias.clone(),
            billing_id: self.billing_id,
            brand: self.brand,
            create_timestamp: self.create_timestamp,
            docker: self.docker,
            fields: self.fields.clone(),
            image_uuid: self.image_uuid,
            internal_metadata: self.internal_metadata.clone(),
            owner_uuid: self.owner_uuid,
            uuid: self.uuid,
            ram: self.ram,
            server_uuid: self.server_uuid,
            state: self.state,
            tag_key: self.tag_key.clone(),
            uuids: self.uuids.clone(),
        }
    }
}

impl ListVmInput {
    /// The filter that selects by nothing.
    pub fn new() -> (r: Self)
        ensures
            r@ == ListVmInputView::unset(),
    {
        Self {
            alias: None,
            billing_id: None,
            brand: None,
            create_timestamp: None,
            docker: None,
            fields: None,
            image_uuid: None,
            internal_metadata: None,
            owner_uuid: None,
            uuid: None,
            ram: None,
            server_uuid: None,
            state: None,
            tag_key: None,
            uuids: None,
        }
    }

    /// Selects by an alias, or a part of one.
    pub fn alias(self, v: &str) -> (r: Self)
        ensures
            r@ == (ListVmInputView { alias: Some(v@), ..self@ }),
            r@.differs_only_at(self@, Criterion::Alias),
    {
        let mut r = self;
        r.alias = Some(v.to_owned());
        r
    }

    /// Selects by a billing identifier, or no longer, for `None`.
    pub fn billing_id(self, v: Option<Uuid>) -> (r: Self)
        ensures
            r@ == (ListVmInputView { billing_id: v, ..self@ }),
            r@.differs_only_at(self@, Criterion::BillingId),
    {
        let mut r = self;
        r.billing_id = v;
        r
    }

    /// Selects by a brand, or no longer, for `None`.
    pub fn brand(self, v: Option<Brand>) -> (r: Self)
        ensures
            r@ == (ListVmInputView { brand: v, ..self@ }),
            r@.differs_only_at(self@, Criterion::Brand),
    {
        let mut r = self;
        r.brand = v;
        r
    }

    /// Selects by a creation time, or no longer, for `None`.
    pub fn create_timestamp(self, v: Option<NaiveDateTime>) -> (r: Self)
        ensures
            r@ == (ListVmInputView { create_timestamp: v, ..self@ }),
            r@.differs_only_at(self@, Criterion::CreateTimestamp),
    {
        let mut r = self;
        r.create_timestamp = v;
        r
    }

    /// Selects by whether Docker manages the machine, or no longer, for `None`.
    pub fn docker(self, v: Option<bool>) -> (r: Self)
        ensures
            r@ == (ListVmInputView { docker: v, ..self@ }),
            r@.differs_only_at(self@, Criterion::Docker),
    {
        let mut r = self;
        r.docker = v;
        r
    }

    /// Selects by the fields to return, or no longer, for `None`.
    pub fn fields(self, v: Option<String>) -> (r: Self)
        ensures
            r@ == (ListVmInputView { fields: v.deep_view(), ..self@ }),
            r@.differs_only_at(self@, Criterion::Fields),
    {
        let mut r = self;
        r.fields = v;
        r
    }

    /// Selects by an image, or no longer, for `None`.
    pub fn image_uuid(self, v: Option<Uuid>) -> (r: Self)
        ensures
            r@ == (ListVmInputView { image_uuid: v, ..self@ }),
            r@.differs_only_at(self@, Criterion::ImageUuid),
    {
        let mut r = self;
        r.image_uuid = v;
        r
    }

    /// Selects by internal metadata, or no longer, for `None`.
    pub fn internal_metadata(self, v: Option<Value>) -> (r: Self)
        ensures
            r@ == (ListVmInputView { internal_metadata: v, ..self@ }),
            r@.differs_only_at(self@, Criterion::InternalMetadata),
    {
        let mut r = self;
        r.internal_metadata = v;
        r
    }

    /// Selects by an owner, or no longer, for `None`.
    pub fn owner_uuid(self, v: Option<Uuid>) -> (r: Self)
        ensures
            r@ == (ListVmInputView { owner_uuid: v, ..self@ }),
            r@.differs_only_at(self@, Criterion::OwnerUuid),
    {
        let mut r = self;
        r.owner_uuid = v;
        r
    }

    /// Selects by a machine identifier, or no longer, for `None`.
    pub fn uuid(self, v: Option<Uuid>) -> (r: Self)
        ensures
            r@ == (ListVmInputView { uuid: v, ..self@ }),
            r@.differs_only_at(self@, Criterion::Uuid),
    {
        let mut r = self;
        r.uuid = v;
        r
    }

    /// Selects by a memory size, or no longer, for `None`.
    pub fn ram(self, v: Option<i32>) -> (r: Self)
        ensures
            r@ == (ListVmInputView { ram: v, ..self@ }),
            r@.differs_only_at(self@, Criterion::Ram),
    {
        let mut r = self;
        r.ram = v;
        r
    }

    /// Selects by a compute node, or no longer, for `None`.
    pub fn server_uuid(self, v: Option<Uuid>) -> (r: Self)
        ensures
            r@ == (ListVmInputView { server_uuid: v, ..self@ }),
            r@.differs_only_at(self@, Criterion::ServerUuid),
    {
        let mut r = self;
        r.server_uuid = v;
        r
    }

    /// Selects by a lifecycle state, or no longer, for `None`.
    pub fn state(self, v: Option<State>) -> (r: Self)
        ensures
            r@ == (ListVmInputView { state: v, ..self@ }),
            r@.differs_only_at(self@, Criterion::State),
    {
        let mut r = self;
        r.state = v;
        r
    }

    /// Selects by a tag key, or no longer, for `None`.
    pub fn tag_key(self, v: Option<String>) -> (r: Self)
        ensures
            r@ == (ListVmInputView { tag_key: v.deep_view(), ..self@ }),
            r@.differs_only_at(self@, Criterion::TagKey),
    {
        let mut r = self;
        r.tag_key = v;
        r
    }

    /// Selects by a list of machine identifiers, or no longer, for `None`.
    pub fn uuids(self, v: Option<String>) -> (r: Self)
        ensures
            r@ == (ListVmInputView { uuids: v.deep_view(), ..self@ }),
            r@.differs_only_at(self@, Criterion::Uuids),
    {
        let mut r = self;
        r.uuids = v;
        r
    }

    /// Ends the chain of setters: the filter as it stands.
    pub fn build(self) -> (r: ListVmInput)
        ensures
            r@ == self@,
    {
        self
    }

    /// The value that the filter selects by under `criterion`, if it does.
    pub fn get(&self, criterion: Criterion) -> (r: Option<CriterionValue>)
        ensures
            r.deep_view() == self@.value_of(criterion),
    {
        match criterion {
            Criterion::Alias => match &self.alias {
                Some(v) => Some(CriterionValue::Text(v.clone())),
                None => None,
            },
            Criterion::BillingId => match &self.billing_id {
                Some(v) => Some(CriterionValue::Id(*v)),
                None => None,
            },
            Criterion::Brand => match &self.brand {
                Some(v) => Some(CriterionValue::Brand(*v)),
                None => None,
            },
            Criterion::CreateTimestamp => match &self.create_timestamp {
                Some(v) => Some(CriterionValue::Timestamp(*v)),
                None => None,
            },
            Criterion::Docker => match &self.docker {
                Some(v) => Some(CriterionValue::Flag(*v)),
                None => None,
            },
            Criterion::Fields => match &self.fields {
                Some(v) => Some(CriterionValue::Text(v.clone())),
                None => None,
            },
            Criterion::ImageUuid => match &self.image_uuid {
                Some(v) => Some(CriterionValue::Id(*v)),
                None => None,
            },
            Criterion::InternalMetadata => match &self.internal_metadata {
                Some(v) => Some(CriterionValue::Document(v.clone())),
                None => None,
            },
            Criterion::OwnerUuid => match &self.owner_uuid {
                Some(v) => Some(CriterionValue::Id(*v)),
                None => None,
            },
            Criterion::Uuid => match &self.uuid {
                Some(v) => Some(CriterionValue::Id(*v)),
                None => None,
            },
            Criterion::Ram => match &self.ram {
                Some(v) => Some(CriterionValue::Number(*v)),
                None => None,
            },
            Criterion::ServerUuid => match &self.server_uuid {
                Some(v) => Some(CriterionValue::Id(*v)),
                None => None,
            },
            Criterion::State => match &self.state {
                Some(v) => Some(CriterionValue::State(*v)),
                None => None,
            },
            Criterion::TagKey => match &self.tag_key {
                Some(v) => Some(CriterionValue::Text(v.clone())),
                None => None,
            },
            Criterion::Uuids => match &self.uuids {
                Some(v) => Some(CriterionValue::Text(v.clone())),
                None => None,
            },
        }
    }

    /// Adds to `pairs` what `criterion` adds to a query.
    fn push_entry(&self, pairs: &mut Vec<(Criterion, CriterionValue)>, criterion: Criterion)
        ensures
            final(pairs).deep_view() == old(pairs).deep_view() + self@.entry(criterion),
    {
        let ghost before = pairs.deep_view();
        if let Some(value) = self.get(criterion) {
            pairs.push((criterion, value));
        }
        assert(pairs.deep_view() =~= before + self@.entry(criterion));
    }

    /// The filter as the flat list of pairs that go into a query: one pair for
    /// each criterion that is set, none for one that is not.
    pub fn criteria(&self) -> (r: Vec<(Criterion, CriterionValue)>)
        ensures
            r.deep_view() == self@.criteria(),
    {
        let mut r: Vec<(Criterion, CriterionValue)> = Vec::new();
        self.push_entry(&mut r, Criterion::Alias);
        assert(r.deep_view() =~= self@.entry(Criterion::Alias));
        self.push_entry(&mut r, Criterion::BillingId);
        self.push_entry(&mut r, Criterion::Brand);
        self.push_entry(&mut r, Criterion::CreateTimestamp);
        self.push_entry(&mut r, Criterion::Docker);
        self.push_entry(&mut r, Criterion::Fields);
        self.push_entry(&mut r, Criterion::ImageUuid);
        self.push_entry(&mut r, Criterion::InternalMetadata);
        self.push_entry(&mut r, Criterion::OwnerUuid);
        self.push_entry(&mut r, Criterion::Uuid);
        self.push_entry(&mut r, Criterion::Ram);
        self.push_entry(&mut r, Criterion::ServerUuid);
        self.push_entry(&mut r, Criterion::State);
        self.push_entry(&mut r, Criterion::TagKey);
        self.push_entry(&mut r, Criterion::Uuids);
        r
    }
}

/// No two criteria go into a query under the same key.
pub proof fn lemma_criterion_keys_are_distinct(one: Criterion, other: Criterion)
    requires
        one != other,
    ensures
        one.spec_as_str() != other.spec_as_str(),
{
    reveal_strlit("alias");
    reveal_strlit("billing_id");
    reveal_strlit("brand");
    reveal_strlit("create_timestamp");
    reveal_strlit("docker");
    reveal_strlit("fields");
    reveal_strlit("image_uuid");
    reveal_strlit("internal_metadata");
    reveal_strlit("owner_uuid");
    reveal_strlit("uuid");
    reveal_strlit("ram");
    reveal_strlit("server_uuid");
    reveal_strlit("state");
    reveal_strlit("tag_key");
    reveal_strlit("uuids");
    assert("alias"@.len() == 5 && "alias"@[0] == 'a');
    assert("billing_id"@.len() == 10 && "billing_id"@[0] == 'b');
    assert("brand"@.len() == 5 && "brand"@[0] == 'b');
    assert("create_timestamp"@.len() == 16 && "create_timestamp"@[0] == 'c');
    assert("docker"@.len() == 6 && "docker"@[0] == 'd');
    assert("fields"@.len() == 6 && "fields"@[0] == 'f');
    assert("image_uuid"@.len() == 10 && "image_uuid"@[0] == 'i');
    assert("internal_metadata"@.len() == 17 && "internal_metadata"@[0] == 'i');
    assert("owner_uuid"@.len() == 10 && "owner_uuid"@[0] == 'o');
    assert("uuid"@.len() == 4 && "uuid"@[0] == 'u');
    assert("ram"@.len() == 3 && "ram"@[0] == 'r');
    assert("server_uuid"@.len() == 11 && "server_uuid"@[0] == 's');
    assert("state"@.len() == 5 && "state"@[0] == 's');
    assert("tag_key"@.len() == 7 && "tag_key"@[0] == 't');
    assert("uuids"@.len() == 5 && "uuids"@[0] == 'u');
}

/// A filter that was just made selects by nothing, and its query is empty.
pub proof fn lemma_unset_filter_has_no_criteria()
    ensures
        forall|criterion: Criterion| ListVmInputView::unset().value_of(criterion) is None,
        ListVmInputView::unset().criteria() == Seq::<(Criterion, CriterionValueView)>::empty(),
{
    assert(ListVmInputView::unset().criteria() =~= Seq::<(Criterion, CriterionValueView)>::empty());
}

/// Two filters that were each made from `base` by setting one criterion, and
/// not the same one, hold nothing of each other: under the other's criterion
/// each still selects as `base` does.
pub proof fn lemma_single_criteria_do_not_meet(
    base: ListVmInputView,
    one: ListVmInputView,
    other: ListVmInputView,
    criterion_of_one: Criterion,
    criterion_of_other: Criterion,
)
    requires
        one.differs_only_at(base, criterion_of_one),
        other.differs_only_at(base, criterion_of_other),
        criterion_of_one != criterion_of_other,
    ensures
        one.value_of(criterion_of_other) == base.value_of(criterion_of_other),
        other.value_of(criterion_of_one) == base.value_of(criterion_of_one),
{
}

/// Every pair of a filter's query is a criterion that is set, with its value.
pub proof fn lemma_query_holds_only_what_is_set(filter: ListVmInputView, at: int)
    requires
        0 <= at < filter.criteria().len(),
    ensures
        filter.value_of(filter.criteria()[at].0) == Some(filter.criteria()[at].1),
{
}

/// What one of two lists holds, the two in a row hold.
proof fn lemma_sum_holds_what_its_parts_hold<A>(a: Seq<A>, b: Seq<A>, x: A)
    ensures
        a.contains(x) || b.contains(x) ==> (a + b).contains(x),
{
    if a.contains(x) {
        let i = choose|i: int| 0 <= i < a.len() && a[i] == x;
        assert((a + b)[i] == x);
    } else if b.contains(x) {
        let i = choose|i: int| 0 <= i < b.len() && b[i] == x;
        assert((a + b)[a.len() + i] == x);
    }
}

/// Every criterion that is set is a pair of the filter's query.
pub proof fn lemma_query_holds_all_that_is_set(filter: ListVmInputView, criterion: Criterion)
    requires
        filter.value_of(criterion) is Some,
    ensures
        filter.criteria().contains((criterion, filter.value_of(criterion)->0)),
{
    let pair = (criterion, filter.value_of(criterion)->0);
    assert(filter.entry(criterion)[0] == pair);
    assert(filter.entry(criterion).contains(pair));
    let mut sum = filter.entry(Criterion::Alias);
    lemma_sum_holds_what_its_parts_hold(sum, filter.entry(Criterion::BillingId), pair);
    sum = sum + filter.entry(Criterion::BillingId);
    lemma_sum_holds_what_its_parts_hold(sum, filter.entry(Criterion::Brand), pair);
    sum = sum + filter.entry(Criterion::Brand);
    lemma_sum_holds_what_its_parts_hold(sum, filter.entry(Criterion::CreateTimestamp), pair);
    sum = sum + filter.entry(Criterion::CreateTimestamp);
    lemma_sum_holds_what_its_parts_hold(sum, filter.entry(Criterion::Docker), pair);
    sum = sum + filter.entry(Criterion::Docker);
    lemma_sum_holds_what_its_parts_hold(sum, filter.entry(Criterion::Fields), pair);
    sum = sum + filter.entry(Criterion::Fields);
    lemma_sum_holds_what_its_parts_hold(sum, filter.entry(Criterion::ImageUuid), pair);
    sum = sum + filter.entry(Criterion::ImageUuid);
    lemma_sum_holds_what_its_parts_hold(sum, filter.entry(Criterion::InternalMetadata), pair);
    sum = sum + filter.entry(Criterion::InternalMetadata);
    lemma_sum_holds_what_its_parts_hold(sum, filter.entry(Criterion::OwnerUuid), pair);
    sum = sum + filter.entry(Criterion::OwnerUuid);
    lemma_sum_holds_what_its_parts_hold(sum, filter.entry(Criterion::Uuid), pair);
    sum = sum + filter.entry(Criterion::Uuid);
    lemma_sum_holds_what_its_parts_hold(sum, filter.entry(Criterion::Ram), pair);
    sum = sum + filter.entry(Criterion::Ram);
    lemma_sum_holds_what_its_parts_hold(sum, filter.entry(Criterion::ServerUuid), pair);
    sum = sum + filter.entry(Criterion::ServerUuid);
    lemma_sum_holds_what_its_parts_hold(sum, filter.entry(Criterion::State), pair);
    sum = sum + filter.entry(Criterion::State);
    lemma_sum_holds_what_its_parts_hold(sum, filter.entry(Criterion::TagKey), pair);
    sum = sum + filter.entry(Criterion::TagKey);
    lemma_sum_holds_what_its_parts_hold(sum, filter.entry(Criterion::Uuids), pair);
    sum = sum + filter.entry(Criterion::Uuids);
    assert(sum == filter.criteria());
}

/// The place of a criterion in a query.
spec fn rank(criterion: Criterion) -> int {
    match criterion {
        Criterion::Alias => 0,
        Criterion::BillingId => 1,
        Criterion::Brand => 2,
        Criterion::CreateTimestamp => 3,
        Criterion::Docker => 4,
        Criterion::Fields => 5,
        Criterion::ImageUuid => 6,
        Criterion::InternalMetadata => 7,
        Criterion::OwnerUuid => 8,
        Criterion::Uuid => 9,
        Criterion::Ram => 10,
        Criterion::ServerUuid => 11,
        Criterion::State => 12,
        Criterion::TagKey => 13,
        Criterion::Uuids => 14,
    }
}

/// Whether the criteria of `pairs` come in the order of a query, all of them
/// before the place `bound`.
spec fn in_order_below(pairs: Seq<(Criterion, CriterionValueView)>, bound: int) -> bool {
    &&& forall|i: int| 0 <= i < pairs.len() ==> rank((#[trigger] pairs[i]).0) < bound
    &&& forall|i: int, j: int|
        0 <= i < j < pairs.len() ==> rank((#[trigger] pairs[i]).0) < rank(
            (#[trigger] pairs[j]).0,
        )
}

proof fn lemma_entry_keeps_order(
    filter: ListVmInputView,
    pairs: Seq<(Criterion, CriterionValueView)>,
    criterion: Criterion,
)
    requires
        in_order_below(pairs, rank(criterion)),
    ensures
        in_order_below(pairs + filter.entry(criterion), rank(criterion) + 1),
{
    let sum = pairs + filter.entry(criterion);
    assert forall|i: int| 0 <= i < sum.len() implies rank((#[trigger] sum[i]).0) < rank(
        criterion,
    ) + 1 by {
        if i < pairs.len() {
            assert(sum[i] == pairs[i]);
        }
    }
    assert forall|i: int, j: int| 0 <= i < j < sum.len() implies rank((#[trigger] sum[i]).0)
        < rank((#[trigger] sum[j]).0) by {
        assert(sum[i] == pairs[i]);
        if j < pairs.len() {
            assert(sum[j] == pairs[j]);
        }
    }
}

/// No criterion is named twice in a filter's query.
pub proof fn lemma_query_names_no_criterion_twice(filter: ListVmInputView, i: int, j: int)
    requires
        0 <= i < j < filter.criteria().len(),
    ensures
        filter.criteria()[i].0 != filter.criteria()[j].0,
{
    let mut sum = filter.entry(Criterion::Alias);
    assert(in_order_below(sum, 1));
    lemma_entry_keeps_order(filter, sum, Criterion::BillingId);
    sum = sum + filter.entry(Criterion::BillingId);
    lemma_entry_keeps_order(filter, sum, Criterion::Brand);
    sum = sum + filter.entry(Criterion::Brand);
    lemma_entry_keeps_order(filter, sum, Criterion::CreateTimestamp);
    sum = sum + filter.entry(Criterion::CreateTimestamp);
    lemma_entry_keeps_order(filter, sum, Criterion::Docker);
    sum = sum + filter.entry(Criterion::Docker);
    lemma_entry_keeps_order(filter, sum, Criterion::Fields);
    sum = sum + filter.entry(Criterion::Fields);
    lemma_entry_keeps_order(filter, sum, Criterion::ImageUuid);
    sum = sum + filter.entry(Criterion::ImageUuid);
    lemma_entry_keeps_order(filter, sum, Criterion::InternalMetadata);
    sum = sum + filter.entry(Criterion::InternalMetadata);
    lemma_entry_keeps_order(filter, sum, Criterion::OwnerUuid);
    sum = sum + filter.entry(Criterion::OwnerUuid);
    lemma_entry_keeps_order(filter, sum, Criterion::Uuid);
    sum = sum + filter.entry(Criterion::Uuid);
    lemma_entry_keeps_order(filter, sum, Criterion::Ram);
    sum = sum + filter.entry(Criterion::Ram);
    lemma_entry_keeps_order(filter, sum, Criterion::ServerUuid);
    sum = sum + filter.entry(Criterion::ServerUuid);
    lemma_entry_keeps_order(filter, sum, Criterion::State);
    sum = sum + filter.entry(Criterion::State);
    lemma_entry_keeps_order(filter, sum, Criterion::TagKey);
    sum = sum + filter.entry(Criterion::TagKey);
    lemma_entry_keeps_order(filter, sum, Criterion::Uuids);
    sum = sum + filter.entry(Criterion::Uuids);
    assert(sum == filter.criteria());
    assert(rank(sum[i].0) < rank(sum[j].0));
}

} // verus!
