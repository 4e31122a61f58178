use vstd::prelude::*;
use crate::variables::anchored::proxy::AnchoredSetVariableTranslationProxy;
use crate::variables::anchored::scalar::{AnchoredModel, AnchoredVariable};
use crate::variables::anchored::set::{AnchoredSetVariable, SetModel};

verus! {

/// One inspected exchange of a request and its response.
pub struct Transaction {}

/// The number under which the set variable `ARGS` is found.
pub const ARGS_ID: usize = 0;

/// The number under which the set variable `ARGS_GET` is found.
pub const ARGS_GET_ID: usize = 1;

/// The number under which the set variable `ARGS_POST` is found.
pub const ARGS_POST_ID: usize = 2;

/// `v` is the variable `name` as it is before anything was set.
pub open spec fn unset_variable(v: AnchoredVariable, name: Seq<char>) -> bool {
    v.inv() && v@ == (AnchoredModel {
        name,
        value: Seq::empty(),
        offset: 0,
        origin: Seq::empty(),
    })
}

/// `v` is the set variable `name` as it is before anything was set.
pub open spec fn unset_set(v: AnchoredSetVariable, name: Seq<char>) -> bool {
    v.inv() && v@ == (SetModel { name, entries: Seq::empty() })
}

/// `p` is the view `name` of the set variable with the number `fount`.
pub open spec fn view_of(
    p: AnchoredSetVariableTranslationProxy,
    name: Seq<char>,
    fount: usize,
) -> bool {
    p.name() == name && p.fount() == fount
}

/// The variables that a transaction fills as the request and the response are read.
pub struct TransactionAnchoredVariables {
    pub m_variable_offset: i32,
    pub m_variable_args_names: AnchoredSetVariableTranslationProxy,
    pub m_variable_args_get_names: AnchoredSetVariableTranslationProxy,
    pub m_variable_args_post_names: AnchoredSetVariableTranslationProxy,
    pub m_variable_response_content_type: AnchoredVariable,
    pub m_variable_arg_scombined_size: AnchoredVariable,
    pub m_variable_auth_type: AnchoredVariable,
    pub m_variable_files_combined_size: AnchoredVariable,
    pub m_variable_full_request: AnchoredVariable,
    pub m_variable_full_request_length: AnchoredVariable,
    pub m_variable_inbound_data_error: AnchoredVariable,
    pub m_variable_matched_var: AnchoredVariable,
    pub m_variable_matched_var_name: AnchoredVariable,
    pub m_variable_msc_pcre_error: AnchoredVariable,
    pub m_variable_msc_pcre_limits_exceeded: AnchoredVariable,
    pub m_variable_multipart_boundary_quoted: AnchoredVariable,
    pub m_variable_multipart_boundary_white_space: AnchoredVariable,
    pub m_variable_multipart_crlf_lf_lines: AnchoredVariable,
    pub m_variable_multipart_data_after: AnchoredVariable,
    pub m_variable_multipart_data_before: AnchoredVariable,
    pub m_variable_multipart_file_limit_exceeded: AnchoredVariable,
    pub m_variable_multipart_header_folding: AnchoredVariable,
    pub m_variable_multipart_invalid_header_folding: AnchoredVariable,
    pub m_variable_multipart_invalid_part: AnchoredVariable,
    pub m_variable_multipart_invalid_quoting: AnchoredVariable,
    pub m_variable_multipart_lf_line: AnchoredVariable,
    pub m_variable_multipart_missing_semicolon: AnchoredVariable,
    pub m_variable_multipart_strict_error: AnchoredVariable,
    pub m_variable_multipart_unmatched_boundary: AnchoredVariable,
    pub m_variable_outbound_data_error: AnchoredVariable,
    pub m_variable_path_info: AnchoredVariable,
    pub m_variable_query_string: AnchoredVariable,
    pub m_variable_remote_addr: AnchoredVariable,
    pub m_variable_remote_host: AnchoredVariable,
    pub m_variable_remote_port: AnchoredVariable,
    pub m_variable_reqbody_error: AnchoredVariable,
    pub m_variable_reqbody_error_msg: AnchoredVariable,
    pub m_variable_reqbody_processor_error: AnchoredVariable,
    pub m_variable_reqbody_processor_error_msg: AnchoredVariable,
    pub m_variable_reqbody_processor: AnchoredVariable,
    pub m_variable_request_basename: AnchoredVariable,
    pub m_variable_request_body: AnchoredVariable,
    pub m_variable_request_body_length: AnchoredVariable,
    pub m_variable_request_filename: AnchoredVariable,
    pub m_variable_request_line: AnchoredVariable,
    pub m_variable_request_method: AnchoredVariable,
    pub m_variable_request_protocol: AnchoredVariable,
    pub m_variable_request_uri: AnchoredVariable,
    pub m_variable_request_uri_raw: AnchoredVariable,
    pub m_variable_resource: AnchoredVariable,
    pub m_variable_response_body: AnchoredVariable,
    pub m_variable_response_content_length: AnchoredVariable,
    pub m_variable_response_protocol: AnchoredVariable,
    pub m_variable_response_status: AnchoredVariable,
    pub m_variable_server_addr: AnchoredVariable,
    pub m_variable_server_name: AnchoredVariable,
    pub m_variable_server_port: AnchoredVariable,
    pub m_variable_session_id: AnchoredVariable,
    pub m_variable_unique_id: AnchoredVariable,
    pub m_variable_url_encoded_error: AnchoredVariable,
    pub m_variable_user_id: AnchoredVariable,
    pub m_variable_args: AnchoredSetVariable,
    pub m_variable_args_get: AnchoredSetVariable,
    pub m_variable_args_post: AnchoredSetVariable,
    pub m_variable_request_headers_names: AnchoredSetVariable,
    pub m_variable_response_headers_names: AnchoredSetVariable,
    pub m_variable_files_sizes: AnchoredSetVariable,
    pub m_variable_files_names: AnchoredSetVariable,
    pub m_variable_files_tmp_content: AnchoredSetVariable,
    pub m_variable_multipart_file_name: AnchoredSetVariable,
    pub m_variable_multipart_name: AnchoredSetVariable,
    pub m_variable_matched_vars_names: AnchoredSetVariable,
    pub m_variable_matched_vars: AnchoredSetVariable,
    pub m_variable_files: AnchoredSetVariable,
    pub m_variable_request_cookies: AnchoredSetVariable,
    pub m_variable_request_headers: AnchoredSetVariable,
    pub m_variable_response_headers: AnchoredSetVariable,
    pub m_variable_geo: AnchoredSetVariable,
    pub m_variable_request_cookies_names: AnchoredSetVariable,
    pub m_variable_files_tmp_names: AnchoredSetVariable,
    pub m_variable_multipart_part_headers: AnchoredSetVariable,
}

impl TransactionAnchoredVariables {
    /// Every variable of the transaction `t` under its name, none of them set.
    pub fn new(t: &Transaction) -> (v: TransactionAnchoredVariables)
        ensures
            v.m_variable_offset == 0,
            view_of(v.m_variable_args_names, "ARGS_NAMES"@, ARGS_ID),
            view_of(v.m_variable_args_get_names, "ARGS_GET_NAMES"@, ARGS_GET_ID),
            view_of(v.m_variable_args_post_names, "ARGS_POST_NAMES"@, ARGS_POST_ID),
            unset_variable(v.m_variable_response_content_type, "RESPONSE_CONTENT_TYPE"@),
            unset_variable(v.m_variable_arg_scombined_size, "ARGS_COMBINED_SIZE"@),
            unset_variable(v.m_variable_auth_type, "AUTH_TYPE"@),
            unset_variable(v.m_variable_files_combined_size, "FILES_COMBINED_SIZE"@),
            unset_variable(v.m_variable_full_request, "FULL_REQUEST"@),
            unset_variable(v.m_variable_full_request_length, "FULL_REQUEST_LENGTH"@),
            unset_variable(v.m_variable_inbound_data_error, "INBOUND_DATA_ERROR"@),
            unset_variable(v.m_variable_matched_var, "MATCHED_VAR"@),
            unset_variable(v.m_variable_matched_var_name, "MATCHED_VAR_NAME"@),
            unset_variable(v.m_variable_msc_pcre_error, "MSC_PCRE_ERROR"@),
            unset_variable(v.m_variable_msc_pcre_limits_exceeded, "MSC_PCRE_LIMITS_EXCEEDED"@),
            unset_variable(v.m_variable_multipart_boundary_quoted, "MULTIPART_BOUNDARY_QUOTED"@),
            unset_variable(
                v.m_variable_multipart_boundary_white_space,
                "MULTIPART_BOUNDARY_WHITESPACE"@,
            ),
            unset_variable(v.m_variable_multipart_crlf_lf_lines, "MULTIPART_CRLF_LF_LINES"@),
            unset_variable(v.m_variable_multipart_data_after, "MULTIPART_DATA_AFTER"@),
            unset_variable(v.m_variable_multipart_data_before, "MULTIPART_DATA_BEFORE"@),
            unset_variable(
                v.m_variable_multipart_file_limit_exceeded,
                "MULTIPART_FILE_LIMIT_EXCEEDED"@,
            ),
            unset_variable(v.m_variable_multipart_header_folding, "MULTIPART_HEADER_FOLDING"@),
            unset_variable(
                v.m_variable_multipart_invalid_header_folding,
                "MULTIPART_INVALID_HEADER_FOLDING"@,
            ),
            unset_variable(v.m_variable_multipart_invalid_part, "MULTIPART_INVALID_PART"@),
            unset_variable(v.m_variable_multipart_invalid_quoting, "MULTIPART_INVALID_QUOTING"@),
            unset_variable(v.m_variable_multipart_lf_line, "MULTIPART_LF_LINE"@),
            unset_variable(
                v.m_variable_multipart_missing_semicolon,
                "MULTIPART_MISSING_SEMICOLON"@,
            ),
            unset_variable(v.m_variable_multipart_strict_error, "MULTIPART_STRICT_ERROR"@),
            unset_variable(
                v.m_variable_multipart_unmatched_boundary,
                "MULTIPART_UNMATCHED_BOUNDARY"@,
            ),
            unset_variable(v.m_variable_outbound_data_error, "OUTBOUND_DATA_ERROR"@),
            unset_variable(v.m_variable_path_info, "PATH_INFO"@),
            unset_variable(v.m_variable_query_string, "QUERY_STRING"@),
            unset_variable(v.m_variable_remote_addr, "REMOTE_ADDR"@),
            unset_variable(v.m_variable_remote_host, "REMOTE_HOST"@),
            unset_variable(v.m_variable_remote_port, "REMOTE_PORT"@),
            unset_variable(v.m_variable_reqbody_error, "REQBODY_ERROR"@),
            unset_variable(v.m_variable_reqbody_error_msg, "REQBODY_ERROR_MSG"@),
            unset_variable(v.m_variable_reqbody_processor_error, "REQBODY_PROCESSOR_ERROR"@),
            unset_variable(
                v.m_variable_reqbody_processor_error_msg,
                "REQBODY_PROCESSOR_ERROR_MSG"@,
            ),
            unset_variable(v.m_variable_reqbody_processor, "REQBODY_PROCESSOR"@),
            unset_variable(v.m_variable_request_basename, "REQUEST_BASENAME"@),
            unset_variable(v.m_variable_request_body, "REQUEST_BODY"@),
            unset_variable(v.m_variable_request_body_length, "REQUEST_BODY_LENGTH"@),
            unset_variable(v.m_variable_request_filename, "REQUEST_FILENAME"@),
            unset_variable(v.m_variable_request_line, "REQUEST_LINE"@),
            unset_variable(v.m_variable_request_method, "REQUEST_METHOD"@),
            unset_variable(v.m_variable_request_protocol, "REQUEST_PROTOCOL"@),
            unset_variable(v.m_variable_request_uri, "REQUEST_URI"@),
            unset_variable(v.m_variable_request_uri_raw, "REQUEST_URI_RAW"@),
            unset_variable(v.m_variable_resource, "RESOURCE"@),
            unset_variable(v.m_variable_response_body, "RESPONSE_BODY"@),
            unset_variable(v.m_variable_response_content_length, "RESPONSE_CONTENT_LENGTH"@),
            unset_variable(v.m_variable_response_protocol, "RESPONSE_PROTOCOL"@),
            unset_variable(v.m_variable_response_status, "RESPONSE_STATUS"@),
            unset_variable(v.m_variable_server_addr, "SERVER_ADDR"@),
            unset_variable(v.m_variable_server_name, "SERVER_NAME"@),
            unset_variable(v.m_variable_server_port, "SERVER_PORT"@),
            unset_variable(v.m_variable_session_id, "SESSIONID"@),
            unset_variable(v.m_variable_unique_id, "UNIQUE_ID"@),
            unset_variable(v.m_variable_url_encoded_error, "URLENCODED_ERROR"@),
            unset_variable(v.m_variable_user_id, "USERID"@),
            unset_set(v.m_variable_args, "ARGS"@),
            unset_set(v.m_variable_args_get, "ARGS_GET"@),
            unset_set(v.m_variable_args_post, "ARGS_POST"@),
            unset_set(v.m_variable_request_headers_names, "REQUEST_HEADERS_NAMES"@),
            unset_set(v.m_variable_response_headers_names, "RESPONSE_HEADERS_NAMES"@),
            unset_set(v.m_variable_files_sizes, "FILES_SIZES"@),
            unset_set(v.m_variable_files_names, "FILES_NAMES"@),
            unset_set(v.m_variable_files_tmp_content, "FILES_TMP_CONTENT"@),
            unset_set(v.m_variable_multipart_file_name, "MULTIPART_FILENAME"@),
            unset_set(v.m_variable_multipart_name, "MULTIPART_NAME"@),
            unset_set(v.m_variable_matched_vars_names, "MATCHED_VARS_NAMES"@),
            unset_set(v.m_variable_matched_vars, "MATCHED_VARS"@),
            unset_set(v.m_variable_files, "FILES"@),
            unset_set(v.m_variable_request_cookies, "REQUEST_COOKIES"@),
            unset_set(v.m_variable_request_headers, "REQUEST_HEADERS"@),
            unset_set(v.m_variable_response_headers, "RESPONSE_HEADERS"@),
            unset_set(v.m_variable_geo, "GEO"@),
            unset_set(v.m_variable_request_cookies_names, "REQUEST_COOKIES_NAMES"@),
            unset_set(v.m_variable_files_tmp_names, "FILES_TMPNAMES"@),
            unset_set(v.m_variable_multipart_part_headers, "MULTIPART_PART_HEADERS"@),
    {
        TransactionAnchoredVariables {
            m_variable_offset: 0,
            m_variable_args_names: AnchoredSetVariableTranslationProxy::new("ARGS_NAMES", ARGS_ID),
            m_variable_args_get_names: AnchoredSetVariableTranslationProxy::new(
                "ARGS_GET_NAMES",
                ARGS_GET_ID,
            ),
            m_variable_args_post_names: AnchoredSetVariableTranslationProxy::new(
                "ARGS_POST_NAMES",
                ARGS_POST_ID,
            ),
            m_variable_response_content_type: AnchoredVariable::new(t, "RESPONSE_CONTENT_TYPE"),
            m_variable_arg_scombined_size: AnchoredVariable::new(t, "ARGS_COMBINED_SIZE"),
            m_variable_auth_type: AnchoredVariable::new(t, "AUTH_TYPE"),
            m_variable_files_combined_size: AnchoredVariable::new(t, "FILES_COMBINED_SIZE"),
            m_variable_full_request: AnchoredVariable::new(t, "FULL_REQUEST"),
            m_variable_full_request_length: AnchoredVariable::new(t, "FULL_REQUEST_LENGTH"),
            m_variable_inbound_data_error: AnchoredVariable::new(t, "INBOUND_DATA_ERROR"),
            m_variable_matched_var: AnchoredVariable::new(t, "MATCHED_VAR"),
            m_variable_matched_var_name: AnchoredVariable::new(t, "MATCHED_VAR_NAME"),
            m_variable_msc_pcre_error: AnchoredVariable::new(t, "MSC_PCRE_ERROR"),
            m_variable_msc_pcre_limits_exceeded: AnchoredVariable::new(
                t,
                "MSC_PCRE_LIMITS_EXCEEDED",
            ),
            m_variable_multipart_boundary_quoted: AnchoredVariable::new(
                t,
                "MULTIPART_BOUNDARY_QUOTED",
            ),
            m_variable_multipart_boundary_white_space: AnchoredVariable::new(
                t,
                "MULTIPART_BOUNDARY_WHITESPACE",
            ),
            m_variable_multipart_crlf_lf_lines: AnchoredVariable::new(t, "MULTIPART_CRLF_LF_LINES"),
            m_variable_multipart_data_after: AnchoredVariable::new(t, "MULTIPART_DATA_AFTER"),
            m_variable_multipart_data_before: AnchoredVariable::new(t, "MULTIPART_DATA_BEFORE"),
            m_variable_multipart_file_limit_exceeded: AnchoredVariable::new(
                t,
                "MULTIPART_FILE_LIMIT_EXCEEDED",
            ),
            m_variable_multipart_header_folding: AnchoredVariable::new(
                t,
                "MULTIPART_HEADER_FOLDING",
            ),
            m_variable_multipart_invalid_header_folding: AnchoredVariable::new(
                t,
                "MULTIPART_INVALID_HEADER_FOLDING",
            ),
            m_variable_multipart_invalid_part: AnchoredVariable::new(t, "MULTIPART_INVALID_PART"),
            m_variable_multipart_invalid_quoting: AnchoredVariable::new(
                t,
                "MULTIPART_INVALID_QUOTING",
            ),
            m_variable_multipart_lf_line: AnchoredVariable::new(t, "MULTIPART_LF_LINE"),
            m_variable_multipart_missing_semicolon: AnchoredVariable::new(
                t,
                "MULTIPART_MISSING_SEMICOLON",
            ),
            m_variable_multipart_strict_error: AnchoredVariable::new(t, "MULTIPART_STRICT_ERROR"),
            m_variable_multipart_unmatched_boundary: AnchoredVariable::new(
                t,
                "MULTIPART_UNMATCHED_BOUNDARY",
            ),
            m_variable_outbound_data_error: AnchoredVariable::new(t, "OUTBOUND_DATA_ERROR"),
            m_variable_path_info: AnchoredVariable::new(t, "PATH_INFO"),
            m_variable_query_string: AnchoredVariable::new(t, "QUERY_STRING"),
            m_variable_remote_addr: AnchoredVariable::new(t, "REMOTE_ADDR"),
            m_variable_remote_host: AnchoredVariable::new(t, "REMOTE_HOST"),
            m_variable_remote_port: AnchoredVariable::new(t, "REMOTE_PORT"),
            m_variable_reqbody_error: AnchoredVariable::new(t, "REQBODY_ERROR"),
            m_variable_reqbody_error_msg: AnchoredVariable::new(t, "REQBODY_ERROR_MSG"),
            m_variable_reqbody_processor_error: AnchoredVariable::new(t, "REQBODY_PROCESSOR_ERROR"),
            m_variable_reqbody_processor_error_msg: AnchoredVariable::new(
                t,
                "REQBODY_PROCESSOR_ERROR_MSG",
            ),
            m_variable_reqbody_processor: AnchoredVariable::new(t, "REQBODY_PROCESSOR"),
            m_variable_request_basename: AnchoredVariable::new(t, "REQUEST_BASENAME"),
            m_variable_request_body: AnchoredVariable::new(t, "REQUEST_BODY"),
            m_variable_request_body_length: AnchoredVariable::new(t, "REQUEST_BODY_LENGTH"),
            m_variable_request_filename: AnchoredVariable::new(t, "REQUEST_FILENAME"),
            m_variable_request_line: AnchoredVariable::new(t, "REQUEST_LINE"),
            m_variable_request_method: AnchoredVariable::new(t, "REQUEST_METHOD"),
            m_variable_request_protocol: AnchoredVariable::new(t, "REQUEST_PROTOCOL"),
            m_variable_request_uri: AnchoredVariable::new(t, "REQUEST_URI"),
            m_variable_request_uri_raw: AnchoredVariable::new(t, "REQUEST_URI_RAW"),
            m_variable_resource: AnchoredVariable::new(t, "RESOURCE"),
            m_variable_response_body: AnchoredVariable::new(t, "RESPONSE_BODY"),
            m_variable_response_content_length: AnchoredVariable::new(t, "RESPONSE_CONTENT_LENGTH"),
            m_variable_response_protocol: AnchoredVariable::new(t, "RESPONSE_PROTOCOL"),
            m_variable_response_status: AnchoredVariable::new(t, "RESPONSE_STATUS"),
            m_variable_server_addr: AnchoredVariable::new(t, "SERVER_ADDR"),
            m_variable_server_name: AnchoredVariable::new(t, "SERVER_NAME"),
            m_variable_server_port: AnchoredVariable::new(t, "SERVER_PORT"),
            m_variable_session_id: AnchoredVariable::new(t, "SESSIONID"),
            m_variable_unique_id: AnchoredVariable::new(t, "UNIQUE_ID"),
            m_variable_url_encoded_error: AnchoredVariable::new(t, "URLENCODED_ERROR"),
            m_variable_user_id: AnchoredVariable::new(t, "USERID"),
            m_variable_args: AnchoredSetVariable::new(t, "ARGS"),
            m_variable_args_get: AnchoredSetVariable::new(t, "ARGS_GET"),
            m_variable_args_post: AnchoredSetVariable::new(t, "ARGS_POST"),
            m_variable_request_headers_names: AnchoredSetVariable::new(t, "REQUEST_HEADERS_NAMES"),
            m_variable_response_headers_names: AnchoredSetVariable::new(
                t,
                "RESPONSE_HEADERS_NAMES",
            ),
            m_variable_files_sizes: AnchoredSetVariable::new(t, "FILES_SIZES"),
            m_variable_files_names: AnchoredSetVariable::new(t, "FILES_NAMES"),
            m_variable_files_tmp_content: AnchoredSetVariable::new(t, "FILES_TMP_CONTENT"),
            m_variable_multipart_file_name: AnchoredSetVariable::new(t, "MULTIPART_FILENAME"),
            m_variable_multipart_name: AnchoredSetVariable::new(t, "MULTIPART_NAME"),
            m_variable_matched_vars_names: AnchoredSetVariable::new(t, "MATCHED_VARS_NAMES"),
            m_variable_matched_vars: AnchoredSetVariable::new(t, "MATCHED_VARS"),
            m_variable_files: AnchoredSetVariable::new(t, "FILES"),
            m_variable_request_cookies: AnchoredSetVariable::new(t, "REQUEST_COOKIES"),
            m_variable_request_headers: AnchoredSetVariable::new(t, "REQUEST_HEADERS"),
            m_variable_response_headers: AnchoredSetVariable::new(t, "RESPONSE_HEADERS"),
            m_variable_geo: AnchoredSetVariable::new(t, "GEO"),
            m_variable_request_cookies_names: AnchoredSetVariable::new(t, "REQUEST_COOKIES_NAMES"),
            m_variable_files_tmp_names: AnchoredSetVariable::new(t, "FILES_TMPNAMES"),
            m_variable_multipart_part_headers: AnchoredSetVariable::new(
                t,
                "MULTIPART_PART_HEADERS",
            ),
        }
    }

    /// The set variable that stands under the number `id`.
    pub fn set_variable(&self, id: usize) -> (found: Option<&AnchoredSetVariable>)
        ensures
            found == if id == ARGS_ID {
                Some(&self.m_variable_args)
            } else if id == ARGS_GET_ID {
                Some(&self.m_variable_args_get)
            } else if id == ARGS_POST_ID {
                Some(&self.m_variable_args_post)
            } else {
                None
            },
    {
        if id == ARGS_ID {
            Some(&self.m_variable_args)
        } else if id == ARGS_GET_ID {
            Some(&self.m_variable_args_get)
        } else if id == ARGS_POST_ID {
            Some(&self.m_variable_args_post)
        } else {
            None
        }
    }
}

} // verus!
