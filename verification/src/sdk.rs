//! The JSON-RPC side of the client: where each request goes and what it says.

use vstd::prelude::*;
use crate::bundle::{bundle_verdict, optional_model, validate_bundle_params};
use crate::error::SdkError;
use crate::json::{
    first_named, lemma_first_named_unique, JsonModel, JsonNumber, JsonValue, PrettyJsonValue,
};

verus! {

/// The path that every request is posted to, after the base URL; the
/// attribution id, where there is one, follows as a query.
pub open spec fn endpoint_path(uuid: Option<Seq<char>>) -> Seq<char> {
    match uuid {
        Some(id) => "/bundles?uuid="@ + id,
        None => "/bundles"@,
    }
}

/// The body of a request: protocol version 2.0, request id 1, the method's
/// name and its parameters.
pub open spec fn envelope(method: Seq<char>, params: JsonModel) -> JsonModel {
    JsonModel::Object(
        seq![
            ("jsonrpc"@, JsonModel::String("2.0"@)),
            ("id"@, JsonModel::Number(JsonNumber::PosInt(1))),
            ("method"@, JsonModel::String(method)),
            ("params"@, params),
        ],
    )
}

/// A request body names its method under `method` and holds its parameters
/// under `params`, beside the protocol version and the request id.
pub proof fn lemma_envelope_fields(method: Seq<char>, params: JsonModel)
    ensures
        envelope(method, params).field("jsonrpc"@) == Some(JsonModel::String("2.0"@)),
        envelope(method, params).field("id"@) == Some(JsonModel::Number(JsonNumber::PosInt(1))),
        envelope(method, params).field("method"@) == Some(JsonModel::String(method)),
        envelope(method, params).field("params"@) == Some(params),
{
    reveal_strlit("jsonrpc");
    reveal_strlit("id");
    reveal_strlit("method");
    reveal_strlit("params");
    let fields = envelope(method, params)->Object_0;
    assert("jsonrpc"@.len() == 7 && "id"@.len() == 2 && "method"@.len() == 6 && "params"@[0] == 'p');
    assert(fields[0].0 == "jsonrpc"@ && fields[1].0 == "id"@ && fields[2].0 == "method"@
        && fields[3].0 == "params"@);
    assert(first_named(fields, "jsonrpc"@, 0));
    assert(first_named(fields, "id"@, 1));
    assert(first_named(fields, "method"@, 2));
    assert(first_named(fields, "params"@, 3));
    lemma_first_named_unique(fields, "jsonrpc"@, 0, choose|c: int| first_named(fields, "jsonrpc"@, c));
    lemma_first_named_unique(fields, "id"@, 1, choose|c: int| first_named(fields, "id"@, c));
    lemma_first_named_unique(fields, "method"@, 2, choose|c: int| first_named(fields, "method"@, c));
    lemma_first_named_unique(fields, "params"@, 3, choose|c: int| first_named(fields, "params"@, c));
}

/// The parameters that are sent: those given, or an empty array.
pub open spec fn params_or_empty(params: Option<JsonModel>) -> JsonModel {
    match params {
        Some(p) => p,
        None => JsonModel::Array(Seq::empty()),
    }
}

/// The text of an attribution id that may be absent.
pub open spec fn optional_text(id: Option<String>) -> Option<Seq<char>> {
    match id {
        Some(s) => Some(s@),
        None => None,
    }
}

/// One request, ready to be posted with a JSON content type.
#[derive(Debug, PartialEq, Eq)]
pub struct JsonRpcRequest {
    /// The address that the request is posted to.
    pub url: String,
    /// The body of the request.
    pub body: JsonValue,
}

impl JsonRpcRequest {
    /// Whether this is the request for `method` with `params`, posted to
    /// `url`.
    pub open spec fn is_call(self, url: Seq<char>, method: Seq<char>, params: JsonModel) -> bool {
        self.url@ == url && self.body@ == envelope(method, params)
    }
}

/// The configuration of one client: a base URL, an attribution id that is
/// attached to every call, and the address of the binary-protocol endpoint
/// once one is bound.
#[derive(Debug)]
pub struct JitoJsonRpcSDK {
    base_url: String,
    uuid: Option<String>,
    grpc_url: Option<String>,
}

impl JitoJsonRpcSDK {
    /// The base URL.
    pub closed spec fn spec_base_url(&self) -> Seq<char> {
        self.base_url@
    }

    /// The attribution id.
    pub closed spec fn spec_uuid(&self) -> Option<Seq<char>> {
        optional_text(self.uuid)
    }

    /// The address of the binary-protocol endpoint.
    pub closed spec fn spec_grpc_url(&self) -> Option<Seq<char>> {
        optional_text(self.grpc_url)
    }

    /// A client for `base_url`, without a binary-protocol endpoint.
    pub fn new(base_url: &str, uuid: Option<String>) -> (sdk: Self)
        ensures
            sdk.spec_base_url() == base_url@,
            sdk.spec_uuid() == optional_text(uuid),
            sdk.spec_grpc_url() is None,
    {
        JitoJsonRpcSDK { base_url: base_url.to_owned(), uuid, grpc_url: None }
    }

    /// A client for `base_url` whose binary-protocol endpoint is `grpc_url`.
    pub fn new_with_grpc(base_url: &str, uuid: Option<String>, grpc_url: &str) -> (sdk: Self)
        ensures
            sdk.spec_base_url() == base_url@,
            sdk.spec_uuid() == optional_text(uuid),
            sdk.spec_grpc_url() == Some(grpc_url@),
    {
        JitoJsonRpcSDK {
            base_url: base_url.to_owned(),
            uuid,
            grpc_url: Some(grpc_url.to_owned()),
        }
    }

    /// Binds the binary-protocol endpoint to `grpc_url`; nothing else changes.
    pub fn enable_grpc(&mut self, grpc_url: &str)
        ensures
            final(self).spec_grpc_url() == Some(grpc_url@),
            final(self).spec_base_url() == old(self).spec_base_url(),
            final(self).spec_uuid() == old(self).spec_uuid(),
    {
        self.grpc_url = Some(grpc_url.to_owned());
    }

    /// The base URL.
    pub fn base_url(&self) -> (url: &str)
        ensures
            url@ == self.spec_base_url(),
    {
        self.base_url.as_str()
    }

    /// The attribution id, where one was given.
    pub fn uuid(&self) -> (id: Option<&str>)
        ensures
            id is Some <==> self.spec_uuid() is Some,
            id matches Some(s) ==> self.spec_uuid() == Some(s@),
    {
        match &self.uuid {
            Some(s) => Some(s.as_str()),
            None => None,
        }
    }

    /// The address of the binary-protocol endpoint, once one is bound.
    pub fn grpc_url(&self) -> (address: Result<&str, SdkError>)
        ensures
            address is Ok <==> self.spec_grpc_url() is Some,
            address matches Ok(s) ==> self.spec_grpc_url() == Some(s@),
            address matches Err(e) ==> e == SdkError::GrpcNotEnabled,
    {
        match &self.grpc_url {
            Some(s) => Ok(s.as_str()),
            None => Err(SdkError::GrpcNotEnabled),
        }
    }

    /// The request for `method` at `endpoint`, a path that follows the base
    /// URL. Absent parameters are sent as an empty array.
    pub fn build_request(&self, endpoint: &str, method: &str, params: Option<JsonValue>) -> (request:
        JsonRpcRequest)
        ensures
            request.is_call(
                self.spec_base_url() + endpoint@,
                method@,
                params_or_empty(optional_model(params)),
            ),
    {
        let mut url = self.base_url.clone();
        url.append(endpoint);
        let ghost given = optional_model(params);
        let sent = match params {
            Some(p) => p,
            None => JsonValue::Array(Vec::new()),
        };
        assert(sent@ == params_or_empty(given)) by {
            if given is None {
                assert(sent@->Array_0 =~= Seq::<JsonModel>::empty());
            }
        }
        let mut fields: Vec<(String, JsonValue)> = Vec::new();
        fields.push(("jsonrpc".to_owned(), JsonValue::String("2.0".to_owned())));
        fields.push(("id".to_owned(), JsonValue::Number(JsonNumber::PosInt(1))));
        fields.push(("method".to_owned(), JsonValue::String(method.to_owned())));
        fields.push(("params".to_owned(), sent));
        let body = JsonValue::Object(fields);
        assert(body@->Object_0 =~= envelope(method@, params_or_empty(given))->Object_0) by {
            reveal_with_fuel(JsonValue::model, 2);
        }
        JsonRpcRequest { url, body }
    }

    /// The path that this client posts to: `/bundles`, followed by the
    /// attribution id as a query where the client has one.
    pub fn endpoint(id: Option<&str>) -> (path: String)
        ensures
            path@ == endpoint_path(
                match id {
                    Some(s) => Some(s@),
                    None => None,
                },
            ),
    {
        match id {
            Some(s) => {
                let mut path = "/bundles?uuid=".to_owned();
                path.append(s);
                path
            },
            None => "/bundles".to_owned(),
        }
    }

    /// The request that asks for the tip accounts.
    pub fn get_tip_accounts(&self) -> (request: JsonRpcRequest)
        ensures
            request.is_call(
                self.spec_base_url() + endpoint_path(self.spec_uuid()),
                "getTipAccounts"@,
                JsonModel::Array(Seq::empty()),
            ),
    {
        let path = Self::endpoint(self.uuid());
        self.build_request(path.as_str(), "getTipAccounts", None)
    }

    /// The request that asks for the statuses of the bundles `bundle_uuids`:
    /// its one parameter is the array of those ids, in the order given.
    pub fn get_bundle_statuses(&self, bundle_uuids: Vec<String>) -> (request: JsonRpcRequest)
        ensures
            request.is_call(
                self.spec_base_url() + endpoint_path(self.spec_uuid()),
                "getBundleStatuses"@,
                JsonModel::Array(seq![JsonModel::strings(bundle_uuids.deep_view())]),
            ),
    {
        let path = Self::endpoint(self.uuid());
        let mut outer: Vec<JsonValue> = Vec::new();
        outer.push(JsonValue::from_strings(bundle_uuids));
        let params = JsonValue::Array(outer);
        assert(params@->Array_0 =~= seq![JsonModel::strings(bundle_uuids.deep_view())]);
        self.build_request(path.as_str(), "getBundleStatuses", Some(params))
    }

    /// The request that submits a bundle, or the reason why `params` is no
    /// bundle parameter. The parameter is checked before anything is built,
    /// and is sent unchanged. The request goes to `/bundles`, with `uuid` as a
    /// query where one is given; the client's own attribution id plays no
    /// part.
    pub fn send_bundle(&self, params: Option<JsonValue>, uuid: Option<&str>) -> (request: Result<
        JsonRpcRequest,
        SdkError,
    >)
        ensures
            match bundle_verdict(optional_model(params)) {
                Ok(_) => request matches Ok(r) && r.is_call(
                    self.spec_base_url() + endpoint_path(
                        match uuid {
                            Some(s) => Some(s@),
                            None => None,
                        },
                    ),
                    "sendBundle"@,
                    optional_model(params)->Some_0,
                ),
                Err(e) => request == Err::<JsonRpcRequest, SdkError>(e),
            },
    {
        match validate_bundle_params(&params) {
            Ok(_) => {
                let path = Self::endpoint(uuid);
                Ok(self.build_request(path.as_str(), "sendBundle", params))
            },
            Err(e) => Err(e),
        }
    }

    /// The tip accounts that the binary-protocol endpoint returned, as an
    /// array of strings; an error where no such endpoint is bound.
    pub fn get_tip_accounts_grpc(&self, accounts: Vec<String>) -> (value: Result<JsonValue, SdkError>)
        ensures
            self.spec_grpc_url() is Some ==> (value matches Ok(v) && v@ == JsonModel::strings(
                accounts.deep_view(),
            )),
            self.spec_grpc_url() is None ==> value == Err::<JsonValue, SdkError>(
                SdkError::GrpcNotEnabled,
            ),
    {
        match self.grpc_url() {
            Ok(_) => Ok(JsonValue::from_strings(accounts)),
            Err(e) => Err(e),
        }
    }

    /// Marks `value` for being shown as indented text; the value itself is
    /// kept as it is.
    pub fn prettify(value: JsonValue) -> (pretty: PrettyJsonValue)
        ensures
            pretty.0 == value,
    {
        PrettyJsonValue(value)
    }
}

} // verus!
