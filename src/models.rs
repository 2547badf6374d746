//! Rule records and the audit record.
use vstd::prelude::*;

verus! {

/// The content of a rule, without its store-assigned identifier.
pub ghost struct RuleModel {
    pub name: Seq<char>,
    pub enabled: bool,
    pub method: Seq<char>,
    pub url: Seq<char>,
    pub file: Seq<char>,
    pub status: i32,
    pub delay: i32,
    pub content_type: Seq<char>,
}

/// A stored rule.
pub struct Mock {
    pub id: i32,
    pub name: String,
    pub is_enable: bool,
    pub request_method: String,
    pub request_url: String,
    pub response_file_path: String,
    pub response_status_code: i32,
    pub response_delay: i32,
    pub response_content_type: String,
}

impl View for Mock {
    type V = RuleModel;

    open spec fn view(&self) -> RuleModel {
        RuleModel {
            name: self.name@,
            enabled: self.is_enable,
            method: self.request_method@,
            url: self.request_url@,
            file: self.response_file_path@,
            status: self.response_status_code,
            delay: self.response_delay,
            content_type: self.response_content_type@,
        }
    }
}

impl Mock {
    /// A copy of this rule, identifier included.
    pub fn duplicate(&self) -> (r: Mock)
        ensures
            r@ == self@,
            r.id == self.id,
    {
        Mock {
            id: self.id,
            name: self.name.clone(),
            is_enable: self.is_enable,
            request_method: self.request_method.clone(),
            request_url: self.request_url.clone(),
            response_file_path: self.response_file_path.clone(),
            response_status_code: self.response_status_code,
            response_delay: self.response_delay,
            response_content_type: self.response_content_type.clone(),
        }
    }
}

/// A rule that has not been stored yet.
pub struct InsertMock {
    pub name: String,
    pub is_enable: bool,
    pub request_method: String,
    pub request_url: String,
    pub response_file_path: String,
    pub response_status_code: i32,
    pub response_delay: i32,
    pub response_content_type: String,
}

impl View for InsertMock {
    type V = RuleModel;

    open spec fn view(&self) -> RuleModel {
        RuleModel {
            name: self.name@,
            enabled: self.is_enable,
            method: self.request_method@,
            url: self.request_url@,
            file: self.response_file_path@,
            status: self.response_status_code,
            delay: self.response_delay,
            content_type: self.response_content_type@,
        }
    }
}

impl InsertMock {
    /// The stored form of this rule under identifier `id`.
    pub fn with_id(self, id: i32) -> (r: Mock)
        ensures
            r@ == self@,
            r.id == id,
    {
        Mock {
            id,
            name: self.name,
            is_enable: self.is_enable,
            request_method: self.request_method,
            request_url: self.request_url,
            response_file_path: self.response_file_path,
            response_status_code: self.response_status_code,
            response_delay: self.response_delay,
            response_content_type: self.response_content_type,
        }
    }
}

/// The audit record of one inbound request.
pub struct InsertLog {
    pub request_method: String,
    pub request_url: String,
    pub request_params: String,
    pub request_body: String,
    pub request_headers: String,
}

/// The models of a sequence of stored rules, in order.
pub open spec fn models(rules: Seq<Mock>) -> Seq<RuleModel> {
    rules.map_values(|m: Mock| m@)
}

} // verus!
