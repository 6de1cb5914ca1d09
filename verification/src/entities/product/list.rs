//! Listing products.

use super::{category_tag_list, category_tags, Product, ProductTaxCategory, ProductView};
use crate::client::{agrees, Client};
use crate::decode::{
    decode_each, lemma_decode_each_failure, lemma_decode_each_step, read_required_array,
    read_required_object, required_array, required_object,
};
use crate::entities::{
    comma_joined, opt_seq, BaseListParams, BaseListParamsGettersSetters, BaseListParamsView,
    EntityStatus, EntityType, Meta, MetaView,
};
use crate::error::{ClientError, DecodeError, PaddleError};
use crate::json::{json_model, json_models, Json};
use crate::query::{form_urlencoded, push_pair, with_pair, QueryPair, EMBED};
use crate::request::{with_query, Method, Request};
use crate::text::{join, joined};
use vstd::prelude::*;

verus! {

/// What to list: the shared filters and paging controls, and a filter on
/// the tax category.
#[derive(Clone, Debug, PartialEq, Eq)]
pub struct ListProductsParams {
    base: BaseListParams,
    tax_category: Option<Vec<ProductTaxCategory>>,
}

/// What a [`ListProductsParams`] holds.
pub ghost struct ListProductsParamsView {
    pub base: BaseListParamsView,
    pub tax_category: Option<Seq<ProductTaxCategory>>,
}

impl ListProductsParamsView {
    /// Nothing is set.
    pub open spec fn empty() -> ListProductsParamsView {
        ListProductsParamsView { base: BaseListParamsView::empty(), tax_category: None }
    }

    /// The query parameters, one pair for each parameter that is set, in
    /// the order `after`, `id`, related entities, `order_by`, `per_page`,
    /// `status`, `tax_category`, `type`.
    pub open spec fn query_pairs(self) -> Seq<(Seq<char>, Seq<char>)> {
        let p = self.base.leading_pairs(Seq::empty());
        let p = with_pair(
            p,
            "tax_category"@,
            comma_joined(
                match self.tax_category {
                    Some(categories) => Some(category_tags(categories)),
                    None => None,
                },
            ),
        );
        self.base.trailing_pairs(p)
    }

    /// The query string.
    pub open spec fn query(self) -> Seq<char> {
        form_urlencoded(self.query_pairs())
    }
}

impl View for ListProductsParams {
    type V = ListProductsParamsView;

    closed spec fn view(&self) -> ListProductsParamsView {
        ListProductsParamsView {
            base: self.base@,
            tax_category: match self.tax_category {
                Some(categories) => Some(categories@),
                None => None,
            },
        }
    }
}

impl Default for ListProductsParams {
    /// Nothing is set.
    fn default() -> (r: ListProductsParams)
        ensures
            r@ == ListProductsParamsView::empty(),
    {
        ListProductsParams { base: BaseListParams::default(), tax_category: None }
    }
}

impl BaseListParamsGettersSetters for ListProductsParams {
    open spec fn list_base(&self) -> BaseListParamsView {
        self@.base
    }

    fn after(&self) -> (r: Option<&str>) {
        self.base.after()
    }

    fn set_after(self, after: &str) -> (r: Self)
        ensures
            r@.tax_category == self@.tax_category,
    {
        let mut params = self;
        params.base = params.base.set_after(after);
        params
    }

    fn id(&self) -> (r: Option<&Vec<String>>) {
        self.base.id()
    }

    fn set_id(self, id: Vec<String>) -> (r: Self)
        ensures
            r@.tax_category == self@.tax_category,
    {
        let mut params = self;
        params.base = params.base.set_id(id);
        params
    }

    fn includes(&self) -> (r: Option<&Vec<String>>) {
        self.base.includes()
    }

    fn set_include(self, includes: Vec<String>) -> (r: Self)
        ensures
            r@.tax_category == self@.tax_category,
    {
        let mut params = self;
        params.base = params.base.set_include(includes);
        params
    }

    fn order_by(&self) -> (r: Option<&str>) {
        self.base.order_by()
    }

    fn set_order_by(self, order_by: &str) -> (r: Self)
        ensures
            r@.tax_category == self@.tax_category,
    {
        let mut params = self;
        params.base = params.base.set_order_by(order_by);
        params
    }

    fn per_page(&self) -> (r: Option<i32>) {
        self.base.per_page()
    }

    fn set_per_page(self, per_page: i32) -> (r: Self)
        ensures
            r@.tax_category == self@.tax_category,
    {
        let mut params = self;
        params.base = params.base.set_per_page(per_page);
        params
    }

    fn status(&self) -> (r: Option<&Vec<EntityStatus>>) {
        self.base.status()
    }

    fn set_status(self, status: Vec<EntityStatus>) -> (r: Self)
        ensures
            r@.tax_category == self@.tax_category,
    {
        let mut params = self;
        params.base = params.base.set_status(status);
        params
    }

    fn p_type(&self) -> (r: Option<&EntityType>) {
        self.base.p_type()
    }

    fn set_p_type(self, p_type: EntityType) -> (r: Self)
        ensures
            r@.tax_category == self@.tax_category,
    {
        let mut params = self;
        params.base = params.base.set_p_type(p_type);
        params
    }
}

impl ListProductsParams {
    /// Parameters with nothing set.
    pub fn new() -> (r: ListProductsParams)
        ensures
            r@ == ListProductsParamsView::empty(),
    {
        ListProductsParams::default()
    }

    /// Return only products with one of these tax categories.
    pub fn tax_category(&self) -> (r: Option<&Vec<ProductTaxCategory>>)
        ensures
            opt_seq(r) == self@.tax_category,
    {
        self.tax_category.as_ref()
    }

    /// Return only products with one of these tax categories.
    pub fn set_tax_category(self, tax_category: Vec<ProductTaxCategory>) -> (r:
        ListProductsParams)
        ensures
            r@ == (ListProductsParamsView { tax_category: Some(tax_category@), ..self@ }),
    {
        let mut params = self;
        params.tax_category = Some(tax_category);
        params
    }

    /// The query parameters as pairs of name and value, before escaping.
    pub fn query_pairs(&self) -> (r: Vec<QueryPair>)
        ensures
            r.deep_view() == self@.query_pairs(),
    {
        let mut pairs: Vec<QueryPair> = Vec::new();
        assert(pairs.deep_view() =~= Seq::<(Seq<char>, Seq<char>)>::empty());
        self.base.push_leading_pairs(&mut pairs);
        push_pair(
            &mut pairs,
            "tax_category",
            match &self.tax_category {
                Some(categories) => {
                    let tags = category_tag_list(categories);
                    Some(join(&tags, ","))
                },
                None => None,
            },
        );
        self.base.push_trailing_pairs(&mut pairs);
        pairs
    }

    /// The query string of the request.
    pub fn to_query(&self) -> (r: String)
        ensures
            r@ == self@.query(),
    {
        crate::query::serialize(&self.query_pairs())
    }

    /// A filter with several values is written as one parameter: the
    /// values in their given order, joined by commas.
    pub proof fn lemma_multi_valued_comma_joined(params: ListProductsParamsView)
        ensures
            params.base.id matches Some(values) ==> params.query_pairs().contains(
                ("id"@, joined(values, ","@)),
            ),
            params.base.includes matches Some(values) ==> params.query_pairs().contains(
                (EMBED@, joined(values, ","@)),
            ),
            params.base.status matches Some(values) ==> params.query_pairs().contains(
                ("status"@, joined(crate::entities::status_tags(values), ","@)),
            ),
            params.tax_category matches Some(values) ==> params.query_pairs().contains(
                ("tax_category"@, joined(category_tags(values), ","@)),
            ),
    {
        let start = Seq::<(Seq<char>, Seq<char>)>::empty();
        params.base.lemma_leading_pairs(start);
        let p = params.base.leading_pairs(start);
        let q = with_pair(
            p,
            "tax_category"@,
            comma_joined(
                match params.tax_category {
                    Some(categories) => Some(category_tags(categories)),
                    None => None,
                },
            ),
        );
        let all = params.query_pairs();
        assert(forall|i: int| 0 <= i < q.len() ==> all[i] == q[i]);
        assert(forall|i: int| 0 <= i < p.len() ==> q[i] == p[i]);
        if params.base.id is Some {
            let pair = ("id"@, joined(params.base.id->Some_0, ","@));
            let i = choose|i: int| 0 <= i < p.len() && p[i] == pair;
            assert(all[i] == pair);
        }
        if params.base.includes is Some {
            let pair = (EMBED@, joined(params.base.includes->Some_0, ","@));
            let i = choose|i: int| 0 <= i < p.len() && p[i] == pair;
            assert(all[i] == pair);
        }
        if params.base.status is Some {
            let pair = (
                "status"@,
                joined(crate::entities::status_tags(params.base.status->Some_0), ","@),
            );
            let i = choose|i: int| 0 <= i < p.len() && p[i] == pair;
            assert(all[i] == pair);
        }
        if params.tax_category is Some {
            let pair = ("tax_category"@, joined(category_tags(params.tax_category->Some_0), ","@));
            assert(q[q.len() - 1] == pair);
            assert(all[q.len() - 1] == pair);
        }
    }

    /// Every parameter that is set gives exactly one pair, and a parameter
    /// that is not set gives none.
    pub proof fn lemma_one_pair_per_parameter(params: ListProductsParamsView)
        ensures
            params.query_pairs().len() == params.base.leading_count() + (if params.tax_category
                is Some {
                1nat
            } else {
                0nat
            }) + (if params.base.p_type is Some {
                1nat
            } else {
                0nat
            }),
    {
        params.base.lemma_leading_pairs(Seq::empty());
    }

    /// On the wire too, every parameter that is set is written exactly
    /// once: the query string holds one `=` for each of them.
    pub proof fn lemma_one_segment_per_parameter(params: ListProductsParamsView)
        ensures
            crate::query::occurrences(params.query(), '=') == params.query_pairs().len(),
            params.query_pairs().len() == params.base.leading_count() + (if params.tax_category
                is Some {
                1nat
            } else {
                0nat
            }) + (if params.base.p_type is Some {
                1nat
            } else {
                0nat
            }),
    {
        Self::lemma_one_pair_per_parameter(params);
        crate::query::lemma_one_segment_per_pair(params.query_pairs());
    }

    /// With nothing set, there are no parameters and the query string is
    /// empty.
    pub proof fn lemma_nothing_set_empty_query(params: ListProductsParamsView)
        requires
            params == ListProductsParamsView::empty(),
        ensures
            params.query_pairs() == Seq::<(Seq<char>, Seq<char>)>::empty(),
            params.query() == Seq::<char>::empty(),
    {
        assert(params.query_pairs() =~= Seq::<(Seq<char>, Seq<char>)>::empty());
        assert(crate::query::form_pairs(params.query_pairs()) =~= Seq::<Seq<char>>::empty());
    }
}

/// One product of a list response.
#[derive(Debug)]
pub struct ProductResponseFromList {
    product: Product,
}

impl View for ProductResponseFromList {
    type V = ProductView;

    closed spec fn view(&self) -> ProductView {
        self.product@
    }
}

impl DeepView for ProductResponseFromList {
    type V = ProductView;

    open spec fn deep_view(&self) -> ProductView {
        self@
    }
}

impl ProductResponseFromList {
    /// The product.
    pub fn product(&self) -> (r: &Product)
        ensures
            r@ == self@,
    {
        &self.product
    }

    /// The product itself.
    pub fn into_product(self) -> (r: Product)
        ensures
            r@ == self@,
    {
        self.product
    }
}

/// The response to a list request: one page of products, and what the
/// service says about the request and the page.
#[derive(Debug)]
pub struct ListProductsResponse {
    data: Vec<ProductResponseFromList>,
    meta: Meta,
}

/// What a [`ListProductsResponse`] holds.
pub ghost struct ListProductsResponseView {
    pub data: Seq<ProductView>,
    pub meta: MetaView,
}

impl View for ListProductsResponse {
    type V = ListProductsResponseView;

    closed spec fn view(&self) -> ListProductsResponseView {
        ListProductsResponseView { data: self.data.deep_view(), meta: self.meta@ }
    }
}

impl ListProductsResponseView {
    /// What the `data` array of a list envelope holds. An empty array is a
    /// valid page.
    pub open spec fn decode_data(items: Seq<Json>) -> Result<Seq<ProductView>, Seq<char>> {
        decode_each(items, |item: Json| ProductView::decode_item(item, "data"@))
    }

    /// What a list envelope holds: a `data` array of products and a `meta`
    /// object.
    pub open spec fn decode(doc: Json) -> Result<ListProductsResponseView, Seq<char>> {
        let data = required_array(doc, "data"@);
        let meta = required_object(doc, "meta"@);
        if data is Err {
            Err(data->Err_0)
        } else if meta is Err {
            Err(meta->Err_0)
        } else {
            match ListProductsResponseView::decode_data(data->Ok_0) {
                Err(name) => Err(name),
                Ok(page) => match MetaView::decode(meta->Ok_0) {
                    Err(name) => Err(name),
                    Ok(about) => Ok(ListProductsResponseView { data: page, meta: about }),
                },
            }
        }
    }
}

impl ListProductsResponse {
    /// The page.
    pub fn data(&self) -> (r: &Vec<ProductResponseFromList>)
        ensures
            r.deep_view() == self@.data,
    {
        &self.data
    }

    /// What the service says about the request and the page.
    pub fn meta(&self) -> (r: &Meta)
        ensures
            r@ == self@.meta,
    {
        &self.meta
    }

    /// The page and the meta block.
    pub fn into_parts(self) -> (r: (Vec<ProductResponseFromList>, Meta))
        ensures
            r.0.deep_view() == self@.data,
            r.1@ == self@.meta,
    {
        (self.data, self.meta)
    }

    /// Reads the `data` array of a list envelope.
    pub fn data_from_json(items: &Vec<serde_json::Value>) -> (r: Result<
        Vec<ProductResponseFromList>,
        DecodeError,
    >)
        ensures
            match r {
                Ok(page) => ListProductsResponseView::decode_data(json_models(items@)) == Ok::<
                    Seq<ProductView>,
                    Seq<char>,
                >(page.deep_view()),
                Err(e) => ListProductsResponseView::decode_data(json_models(items@)) matches Err(name)
                    && e.is_shape(name),
            },
    {
        let ghost docs = json_models(items@);
        let ghost decode = |item: Json| ProductView::decode_item(item, "data"@);
        let mut page: Vec<ProductResponseFromList> = Vec::new();
        let mut i: usize = 0;
        assert(docs.take(0) =~= Seq::<Json>::empty());
        assert(page.deep_view() =~= Seq::<ProductView>::empty());
        while i < items.len()
            invariant
                i <= items.len(),
                docs == json_models(items@),
                decode == (|item: Json| ProductView::decode_item(item, "data"@)),
                decode_each(docs.take(i as int), decode) == Ok::<Seq<ProductView>, Seq<char>>(
                    page.deep_view(),
                ),
            decreases items.len() - i,
        {
            proof {
                lemma_decode_each_step(docs, decode, i as int);
            }
            match Product::item_from_json(&items[i], "data") {
                Ok(product) => {
                    let ghost before = page.deep_view();
                    page.push(ProductResponseFromList { product });
                    assert(page.deep_view() =~= before.push(product@));
                },
                Err(e) => {
                    proof {
                        lemma_decode_each_failure(docs, decode, i + 1);
                    }
                    return Err(e);
                },
            }
            i += 1;
        }
        assert(docs.take(i as int) =~= docs);
        Ok(page)
    }

    /// Reads a list envelope.
    pub fn from_json(doc: &serde_json::Value) -> (r: Result<ListProductsResponse, DecodeError>)
        ensures
            match r {
                Ok(response) => ListProductsResponseView::decode(json_model(*doc)) == Ok::<
                    ListProductsResponseView,
                    Seq<char>,
                >(response@),
                Err(e) => ListProductsResponseView::decode(json_model(*doc)) matches Err(name) && e.is_shape(
                    name,
                ),
            },
    {
        let data = read_required_array(doc, "data")?;
        let meta = read_required_object(doc, "meta")?;
        let data = ListProductsResponse::data_from_json(data)?;
        let meta = Meta::from_json(meta)?;
        Ok(ListProductsResponse { data, meta })
    }

    /// Reads the response to a list request.
    pub fn from_response(status: u16, body: String) -> (r: Result<ListProductsResponse, ClientError>)
        ensures
            PaddleError::reading(
                status,
                crate::json::json_parse(body@),
                |doc: Json| ListProductsResponseView::decode(doc),
                match r {
                    Ok(response) => Ok(response@),
                    Err(e) => Err(e),
                },
            ),
    {
        let doc = PaddleError::document(status, body)?;
        match ListProductsResponse::from_json(&doc) {
            Ok(response) => Ok(response),
            Err(e) => Err(ClientError::Decode(e)),
        }
    }
}

impl Client {
    /// The request for a page of products.
    pub fn get_list_products(&self, params: ListProductsParams) -> (r: Result<Request, ClientError>)
        ensures
            agrees(self@.plan(Method::Get, with_query("products"@, params@.query()), None), r),
    {
        let query = params.to_query();
        self.list("products", query.as_str())
    }
}

} // verus!
