//! Dynamic registration of OAuth 2.0 clients: the registration
//! request builder, the JSON body and HTTP request it turns into, the
//! registration response and the registration error codes.

mod error_codes;
mod json;
mod params;
mod request;
mod response;
mod text;
mod types;

pub use error_codes::{
    basic_code_from_name, basic_code_is_canonical, basic_code_name, is_registration_name,
    is_standard_basic_name, law_basic_code_round_trip, law_code_names, law_basic_name_round_trip,
    law_registration_code_round_trip, law_registration_name_round_trip,
    registration_code_from_name, registration_code_is_canonical, registration_code_name,
    BasicErrorCode, BasicErrorResponseType, DynamicClientRegistrationErrorResponseType,
    RegistrationErrorCode,
};
pub use text::{
    has_no_space, join_space_delimited, join_with_spaces, law_join_push, law_join_split,
    law_split_after_space, law_split_join, law_split_no_space,
    split_at_spaces, split_space_delimited, str_eq, strings_view,
};
pub use types::{
    redirect_urls_view, response_types_view, scopes_from_space_delimited,
    scopes_to_space_delimited, scopes_view, url_serialization, AccessToken,
    ClientId, ClientName, ClientSecret, DynamicClientRegistrationUrl, RedirectUrl, ResponseType,
    Scope,
};
pub use json::{
    comma_join, encode_json_object, encode_string_array, encoded_strings, json_string,
    byte_written_as_is, hex_digit, json_escape_byte, law_object_members,
    law_plain_text_kept_whole, law_string_list_value, law_string_value_is_its_literal, json_escaped_bytes, json_string_encoding, json_value,
    json_value_text, member_bytes, members_view, object_bytes,
    value_bytes, BodyValue, BodyValueView,
};
pub use params::{
    has_name, insert_param, law_last_param_wins, law_merged_params_names, merge_params,
    merged_params, names_distinct, pairs_view,
};
pub use request::{
    bearer_value, body_members, body_parts, dynamic_client_registration_impl, extra_members,
    header_value_char_ok, header_value_text_ok, http_uri_accepts, is_expected_registration_status,
    key_set_text, law_metadata_is_sent, law_set_fields_are_sent, law_only_set_fields_are_sent, law_prepared_request_outcome, law_new_request, law_key_set_sent, law_body_in_field_order, field_names, field_rank, law_prepared_request_headers, list_member, new_request_view, opt_bytes,
    opt_text, outcome_of, parts_view, prepared_request, raw_member, request_headers, text_member,
    DynamicClientRegistrationRequest, HttpRequest, HttpRequestView, PrepareOutcome,
    PrepareRequestError, RegistrationRequestView,
};
pub use response::{
    registration_response_action, AuthType, Client, RegistrationResponseAction, DynamicClientRegistrationResponse,
    EmptyExtraDynamicClientRegistrationFields, ExtraDynamicClientRegistrationFields,
    StandardDynamicClientRegistrationResponse,
};
