//! Listing prices.

use super::{Price, PriceView};
use crate::client::{agrees, Client};
use crate::decode::{
    decode_each, lemma_decode_each_failure, lemma_decode_each_step, read_required_array,
    read_required_object, required_array, required_object,
};
use crate::entities::{
    BaseListParams, BaseListParamsGettersSetters, BaseListParamsView, EntityStatus, EntityType,
    Meta, MetaView,
};
use crate::error::{ClientError, DecodeError, PaddleError};
use crate::json::{json_model, json_models, Json};
use crate::query::{form_urlencoded, push_pair, with_pair, QueryPair, EMBED};
use crate::request::{with_query, Method, Request};
use crate::text::{bool_text, bool_to_string, joined};
use vstd::prelude::*;

verus! {

/// What to list: the shared filters and paging controls, and a filter on
/// whether a price recurs.
#[derive(Clone, Debug, PartialEq, Eq)]
pub struct ListPricesParams {
    base: BaseListParams,
    recurring: Option<bool>,
}

/// What a [`ListPricesParams`] holds.
pub ghost struct ListPricesParamsView {
    pub base: BaseListParamsView,
    pub recurring: Option<bool>,
}

impl ListPricesParamsView {
    /// Nothing is set.
    pub open spec fn empty() -> ListPricesParamsView {
        ListPricesParamsView { base: BaseListParamsView::empty(), recurring: None }
    }

    /// The query parameters, one pair for each parameter that is set, in
    /// the order `after`, `id`, related entities, `order_by`, `per_page`,
    /// `status`, `recurring`, `type`.
    pub open spec fn query_pairs(self) -> Seq<(Seq<char>, Seq<char>)> {
        let p = self.base.leading_pairs(Seq::empty());
        let p = with_pair(
            p,
            "recurring"@,
            match self.recurring {
                Some(flag) => Some(bool_text(flag)),
                None => None,
            },
        );
        self.base.trailing_pairs(p)
    }

    /// The query string.
    pub open spec fn query(self) -> Seq<char> {
        form_urlencoded(self.query_pairs())
    }
}

impl View for ListPricesParams {
    type V = ListPricesParamsView;

    closed spec fn view(&self) -> ListPricesParamsView {
        ListPricesParamsView { base: self.base@, recurring: self.recurring }
    }
}

impl Default for ListPricesParams {
    /// Nothing is set.
    fn default() -> (r: ListPricesParams)
        ensures
            r@ == ListPricesParamsView::empty(),
    {
        ListPricesParams { base: BaseListParams::default(), recurring: None }
    }
}

impl BaseListParamsGettersSetters for ListPricesParams {
    open spec fn list_base(&self) -> BaseListParamsView {
        self@.base
    }

    fn after(&self) -> (r: Option<&str>) {
        self.base.after()
    }

    fn set_after(self, after: &str) -> (r: Self)
        ensures
            r@.recurring == self@.recurring,
    {
        let mut params = self;
        params.base = params.base.set_after(after);
        params
    }

    fn id(&self) -> (r: Option<&Vec<String>>) {
        self.base.id()
    }

    fn set_id(self, id: Vec<String>) -> (r: Self)
        ensures
            r@.recurring == self@.recurring,
    {
        let mut params = self;
        params.base = params.base.set_id(id);
        params
    }

    fn includes(&self) -> (r: Option<&Vec<String>>) {
        self.base.includes()
    }

    fn set_include(self, includes: Vec<String>) -> (r: Self)
        ensures
            r@.recurring == self@.recurring,
    {
        let mut params = self;
        params.base = params.base.set_include(includes);
        params
    }

    fn order_by(&self) -> (r: Option<&str>) {
        self.base.order_by()
    }

    fn set_order_by(self, order_by: &str) -> (r: Self)
        ensures
            r@.recurring == self@.recurring,
    {
        let mut params = self;
        params.base = params.base.set_order_by(order_by);
        params
    }

    fn per_page(&self) -> (r: Option<i32>) {
        self.base.per_page()
    }

    fn set_per_page(self, per_page: i32) -> (r: Self)
        ensures
            r@.recurring == self@.recurring,
    {
        let mut params = self;
        params.base = params.base.set_per_page(per_page);
        params
    }

    fn status(&self) -> (r: Option<&Vec<EntityStatus>>) {
        self.base.status()
    }

    fn set_status(self, status: Vec<EntityStatus>) -> (r: Self)
        ensures
            r@.recurring == self@.recurring,
    {
        let mut params = self;
        params.base = params.base.set_status(status);
        params
    }

    fn p_type(&self) -> (r: Option<&EntityType>) {
        self.base.p_type()
    }

    fn set_p_type(self, p_type: EntityType) -> (r: Self)
        ensures
            r@.recurring == self@.recurring,
    {
        let mut params = self;
        params.base = params.base.set_p_type(p_type);
        params
    }
}

impl ListPricesParams {
    /// Parameters with nothing set.
    pub fn new() -> (r: ListPricesParams)
        ensures
            r@ == ListPricesParamsView::empty(),
    {
        ListPricesParams::default()
    }

    /// Return only recurring prices, or only one-time prices.
    pub fn recurring(&self) -> (r: Option<bool>)
        ensures
            r == self@.recurring,
    {
        self.recurring
    }

    /// Return only recurring prices (`true`) or only one-time prices
    /// (`false`).
    pub fn set_recurring(self, recurring: bool) -> (r: ListPricesParams)
        ensures
            r@ == (ListPricesParamsView { recurring: Some(recurring), ..self@ }),
    {
        let mut params = self;
        params.recurring = Some(recurring);
        params
    }

    /// The query parameters as pairs of name and value, before escaping.
    pub fn query_pairs(&self) -> (r: Vec<QueryPair>)
        ensures
            r.deep_view() == self@.query_pairs(),
    {
        let mut pairs: Vec<QueryPair> = Vec::new();
        assert(pairs.deep_view() =~= Seq::<(Seq<char>, Seq<char>)>::empty());
        self.base.push_leading_pairs(&mut pairs);
        push_pair(
            &mut pairs,
            "recurring",
            match self.recurring {
                Some(flag) => Some(bool_to_string(flag)),
                None => None,
            },
        );
        self.base.push_trailing_pairs(&mut pairs);
        pairs
    }

    /// The query string of the request.
    pub fn to_query(&self) -> (r: String)
        ensures
            r@ == self@.query(),
    {
        crate::query::serialize(&self.query_pairs())
    }

    /// A filter with several values is written as one parameter: the
    /// values in their given order, joined by commas.
    pub proof fn lemma_multi_valued_comma_joined(params: ListPricesParamsView)
        ensures
            params.base.id matches Some(values) ==> params.query_pairs().contains(
                ("id"@, joined(values, ","@)),
            ),
            params.base.includes matches Some(values) ==> params.query_pairs().contains(
                (EMBED@, joined(values, ","@)),
            ),
            params.base.status matches Some(values) ==> params.query_pairs().contains(
                ("status"@, joined(crate::entities::status_tags(values), ","@)),
            ),
    {
        let start = Seq::<(Seq<char>, Seq<char>)>::empty();
        params.base.lemma_leading_pairs(start);
        let p = params.base.leading_pairs(start);
        let q = with_pair(
            p,
            "recurring"@,
            match params.recurring {
                Some(flag) => Some(bool_text(flag)),
                None => None,
            },
        );
        let all = params.query_pairs();
        assert(forall|i: int| 0 <= i < q.len() ==> all[i] == q[i]);
        assert(forall|i: int| 0 <= i < p.len() ==> q[i] == p[i]);
        if params.base.id is Some {
            let pair = ("id"@, joined(params.base.id->Some_0, ","@));
            let i = choose|i: int| 0 <= i < p.len() && p[i] == pair;
            assert(all[i] == pair);
        }
        if params.base.includes is Some {
            let pair = (EMBED@, joined(params.base.includes->Some_0, ","@));
            let i = choose|i: int| 0 <= i < p.len() && p[i] == pair;
            assert(all[i] == pair);
        }
        if params.base.status is Some {
            let pair = (
                "status"@,
                joined(crate::entities::status_tags(params.base.status->Some_0), ","@),
            );
            let i = choose|i: int| 0 <= i < p.len() && p[i] == pair;
            assert(all[i] == pair);
        }
    }

    /// Every parameter that is set gives exactly one pair, and a parameter
    /// that is not set gives none.
    pub proof fn lemma_one_pair_per_parameter(params: ListPricesParamsView)
        ensures
            params.query_pairs().len() == params.base.leading_count() + (if params.recurring
                is Some {
                1nat
            } else {
                0nat
            }) + (if params.base.p_type is Some {
                1nat
            } else {
                0nat
            }),
    {
        params.base.lemma_leading_pairs(Seq::empty());
    }

    /// On the wire too, every parameter that is set is written exactly
    /// once: the query string holds one `=` for each of them.
    pub proof fn lemma_one_segment_per_parameter(params: ListPricesParamsView)
        ensures
            crate::query::occurrences(params.query(), '=') == params.query_pairs().len(),
            params.query_pairs().len() == params.base.leading_count() + (if params.recurring
                is Some {
                1nat
            } else {
                0nat
            }) + (if params.base.p_type is Some {
                1nat
            } else {
                0nat
            }),
    {
        Self::lemma_one_pair_per_parameter(params);
        crate::query::lemma_one_segment_per_pair(params.query_pairs());
    }

    /// With nothing set, there are no parameters and the query string is
    /// empty.
    pub proof fn lemma_nothing_set_empty_query(params: ListPricesParamsView)
        requires
            params == ListPricesParamsView::empty(),
        ensures
            params.query_pairs() == Seq::<(Seq<char>, Seq<char>)>::empty(),
            params.query() == Seq::<char>::empty(),
    {
        assert(params.query_pairs() =~= Seq::<(Seq<char>, Seq<char>)>::empty());
        assert(crate::query::form_pairs(params.query_pairs()) =~= Seq::<Seq<char>>::empty());
    }
}

/// One price of a list response.
#[derive(Debug)]
pub struct PriceResponseFromList {
    price: Price,
}

impl View for PriceResponseFromList {
    type V = PriceView;

    closed spec fn view(&self) -> PriceView {
        self.price@
    }
}

impl DeepView for PriceResponseFromList {
    type V = PriceView;

    open spec fn deep_view(&self) -> PriceView {
        self@
    }
}

impl PriceResponseFromList {
    /// The price.
    pub fn price(&self) -> (r: &Price)
        ensures
            r@ == self@,
    {
        &self.price
    }

    /// The price itself.
    pub fn into_price(self) -> (r: Price)
        ensures
            r@ == self@,
    {
        self.price
    }
}

/// The response to a list request: one page of prices, and what the
/// service says about the request and the page.
#[derive(Debug)]
pub struct ListPricesResponse {
    data: Vec<PriceResponseFromList>,
    meta: Meta,
}

/// What a [`ListPricesResponse`] holds.
pub ghost struct ListPricesResponseView {
    pub data: Seq<PriceView>,
    pub meta: MetaView,
}

impl View for ListPricesResponse {
    type V = ListPricesResponseView;

    closed spec fn view(&self) -> ListPricesResponseView {
        ListPricesResponseView { data: self.data.deep_view(), meta: self.meta@ }
    }
}

impl ListPricesResponseView {
    /// What the `data` array of a list envelope holds. An empty array is a
    /// valid page.
    pub open spec fn decode_data(items: Seq<Json>) -> Result<Seq<PriceView>, Seq<char>> {
        decode_each(items, |item: Json| PriceView::decode_item(item, "data"@))
    }

    /// What a list envelope holds: a `data` array of prices and a `meta`
    /// object.
    pub open spec fn decode(doc: Json) -> Result<ListPricesResponseView, Seq<char>> {
        let data = required_array(doc, "data"@);
        let meta = required_object(doc, "meta"@);
        if data is Err {
            Err(data->Err_0)
        } else if meta is Err {
            Err(meta->Err_0)
        } else {
            match ListPricesResponseView::decode_data(data->Ok_0) {
                Err(name) => Err(name),
                Ok(page) => match MetaView::decode(meta->Ok_0) {
                    Err(name) => Err(name),
                    Ok(about) => Ok(ListPricesResponseView { data: page, meta: about }),
                },
            }
        }
    }
}

impl ListPricesResponse {
    /// The page.
    pub fn data(&self) -> (r: &Vec<PriceResponseFromList>)
        ensures
            r.deep_view() == self@.data,
    {
        &self.data
    }

    /// What the service says about the request and the page.
    pub fn meta(&self) -> (r: &Meta)
        ensures
            r@ == self@.meta,
    {
        &self.meta
    }

    /// The page and the meta block.
    pub fn into_parts(self) -> (r: (Vec<PriceResponseFromList>, Meta))
        ensures
            r.0.deep_view() == self@.data,
            r.1@ == self@.meta,
    {
        (self.data, self.meta)
    }

    /// Reads the `data` array of a list envelope.
    pub fn data_from_json(items: &Vec<serde_json::Value>) -> (r: Result<
        Vec<PriceResponseFromList>,
        DecodeError,
    >)
        ensures
            match r {
                Ok(page) => ListPricesResponseView::decode_data(json_models(items@)) == Ok::<
                    Seq<PriceView>,
                    Seq<char>,
                >(page.deep_view()),
                Err(e) => ListPricesResponseView::decode_data(json_models(items@)) matches Err(name)
                    && e.is_shape(name),
            },
    {
        let ghost docs = json_models(items@);
        let ghost decode = |item: Json| PriceView::decode_item(item, "data"@);
        let mut page: Vec<PriceResponseFromList> = Vec::new();
        let mut i: usize = 0;
        assert(docs.take(0) =~= Seq::<Json>::empty());
        assert(page.deep_view() =~= Seq::<PriceView>::empty());
        while i < items.len()
            invariant
                i <= items.len(),
                docs == json_models(items@),
                decode == (|item: Json| PriceView::decode_item(item, "data"@)),
                decode_each(docs.take(i as int), decode) == Ok::<Seq<PriceView>, Seq<char>>(
                    page.deep_view(),
                ),
            decreases items.len() - i,
        {
            proof {
                lemma_decode_each_step(docs, decode, i as int);
            }
            match Price::item_from_json(&items[i], "data") {
                Ok(price) => {
                    let ghost before = page.deep_view();
                    page.push(PriceResponseFromList { price });
                    assert(page.deep_view() =~= before.push(price@));
                },
                Err(e) => {
                    proof {
                        lemma_decode_each_failure(docs, decode, i + 1);
                    }
                    return Err(e);
                },
            }
            i += 1;
        }
        assert(docs.take(i as int) =~= docs);
        Ok(page)
    }

    /// Reads a list envelope.
    pub fn from_json(doc: &serde_json::Value) -> (r: Result<ListPricesResponse, DecodeError>)
        ensures
            match r {
                Ok(response) => ListPricesResponseView::decode(json_model(*doc)) == Ok::<
                    ListPricesResponseView,
                    Seq<char>,
                >(response@),
                Err(e) => ListPricesResponseView::decode(json_model(*doc)) matches Err(name) && e.is_shape(
                    name,
                ),
            },
    {
        let data = read_required_array(doc, "data")?;
        let meta = read_required_object(doc, "meta")?;
        let data = ListPricesResponse::data_from_json(data)?;
        let meta = Meta::from_json(meta)?;
        Ok(ListPricesResponse { data, meta })
    }

    /// Reads the response to a list request.
    pub fn from_response(status: u16, body: String) -> (r: Result<ListPricesResponse, ClientError>)
        ensures
            PaddleError::reading(
                status,
                crate::json::json_parse(body@),
                |doc: Json| ListPricesResponseView::decode(doc),
                match r {
                    Ok(response) => Ok(response@),
                    Err(e) => Err(e),
                },
            ),
    {
        let doc = PaddleError::document(status, body)?;
        match ListPricesResponse::from_json(&doc) {
            Ok(response) => Ok(response),
            Err(e) => Err(ClientError::Decode(e)),
        }
    }
}

impl Client {
    /// The request for a page of prices.
    pub fn get_list_prices(&self, params: ListPricesParams) -> (r: Result<Request, ClientError>)
        ensures
            agrees(self@.plan(Method::Get, with_query("prices"@, params@.query()), None), r),
    {
        let query = params.to_query();
        self.list("prices", query.as_str())
    }
}

} // verus!
