//! Roles, API responses and HTTP statuses, and the text that describes each.

use crate::decimal::{decimal, push_decimal};
use vstd::prelude::*;

verus! {

/// Who a user is, and what that lets them reach.
#[derive(Debug, Clone)]
pub enum UserRole {
    Admin,
    /// A manager of the named department.
    Manager(String),
    User { id: u32, name: String },
}

pub open spec fn permission_text(role: UserRole) -> Seq<char> {
    match role {
        UserRole::Admin => "Yetki: Tam erişim (Admin)"@,
        UserRole::Manager(department) => "Yetki: "@ + department@ + " departmanına özel erişim (Manager)"@,
        UserRole::User { id, name } => "Yetki: "@ + name@ + " (ID: "@ + decimal(id as nat)
            + ") için sınırlı erişim (User)"@,
    }
}

/// The access that `role` grants, as one line.
pub fn check_permissions(role: &UserRole) -> (r: String)
    ensures
        r@ == permission_text(*role),
{
    match role {
        UserRole::Admin => String::from_str("Yetki: Tam erişim (Admin)"),
        UserRole::Manager(department) => {
            let mut text = String::from_str("Yetki: ");
            text.append(department.as_str());
            text.append(" departmanına özel erişim (Manager)");
            text
        },
        UserRole::User { id, name } => {
            let mut text = String::from_str("Yetki: ");
            text.append(name.as_str());
            text.append(" (ID: ");
            push_decimal(&mut text, *id as u64);
            text.append(") için sınırlı erişim (User)");
            text
        },
    }
}

/// The answer of an API call.
#[derive(Debug, Clone)]
pub enum ApiResponse {
    Success(String),
    Error { code: u16, message: String },
    NotFound,
}

pub open spec fn response_text(response: ApiResponse) -> Seq<char> {
    match response {
        ApiResponse::Success(data) => "İşlem Başarılı: "@ + data@,
        ApiResponse::Error { code, message } => "Hata "@ + decimal(code as nat) + ": "@ + message@,
        ApiResponse::NotFound => "Hata: Kaynak bulunamadı"@,
    }
}

/// `response` described in one line.
pub fn handle_response(response: ApiResponse) -> (r: String)
    ensures
        r@ == response_text(response),
{
    match response {
        ApiResponse::Success(data) => {
            let mut text = String::from_str("İşlem Başarılı: ");
            text.append(data.as_str());
            text
        },
        ApiResponse::Error { code, message } => {
            let mut text = String::from_str("Hata ");
            push_decimal(&mut text, code as u64);
            text.append(": ");
            text.append(message.as_str());
            text
        },
        ApiResponse::NotFound => String::from_str("Hata: Kaynak bulunamadı"),
    }
}

/// The statuses that a ping can report.
#[derive(Debug, Clone, Copy, PartialEq, Eq, Structural)]
pub enum HttpStatus {
    Success,
    Accepted,
    NotFound,
    BadRequest,
    InternalServerError,
}

/// The status that a ping reports for the draw `random_value` (drawn from 1 to 10):
/// 1 is `Success`, 2 to 4 `Accepted`, 5 `BadRequest`, 8 and 10 `NotFound`, the rest
/// `InternalServerError`.
pub fn ping_status(random_value: u32) -> (r: HttpStatus)
    ensures
        r == if random_value == 1 {
            HttpStatus::Success
        } else if 2 <= random_value <= 4 {
            HttpStatus::Accepted
        } else if random_value == 5 {
            HttpStatus::BadRequest
        } else if random_value == 8 || random_value == 10 {
            HttpStatus::NotFound
        } else {
            HttpStatus::InternalServerError
        },
{
    match random_value {
        1 => HttpStatus::Success,
        2..=4 => HttpStatus::Accepted,
        5 => HttpStatus::BadRequest,
        8 | 10 => HttpStatus::NotFound,
        _ => HttpStatus::InternalServerError,
    }
}

} // verus!
