//! The typed outcomes of the gateway's operations, and their views.

use crate::models::{Hat, HatView};
use vstd::prelude::*;

verus! {

/// Outcome of asking for the interface description.
#[derive(Debug, Clone, PartialEq)]
pub enum ApiResponse {
    /// OK
    OK(String),
    /// Not found
    NotFound(String),
}

/// What the contracts see of an `ApiResponse`.
pub enum ApiResponseView {
    OK(Seq<char>),
    NotFound(Seq<char>),
}

impl View for ApiResponse {
    type V = ApiResponseView;

    open spec fn view(&self) -> ApiResponseView {
        match self {
            ApiResponse::OK(s) => ApiResponseView::OK(s@),
            ApiResponse::NotFound(s) => ApiResponseView::NotFound(s@),
        }
    }
}

/// Outcome of reading one device.
#[derive(Debug, Clone, PartialEq)]
pub enum GetResponse {
    /// OK
    OK(String),
    /// Bad request
    BadRequest(String),
    /// Not found, or the bus is in use, or the tool failed
    NotFound(String),
}

/// Outcome of reading one device over several frames.
#[derive(Debug, Clone, PartialEq)]
pub enum GetMultiResponse {
    /// OK
    OK(String),
    /// Bad request
    BadRequest(String),
    /// Not found, or the bus is in use, or the tool failed
    NotFound(String),
}

/// Outcome of scanning the bus.
#[derive(Debug, Clone, PartialEq)]
pub enum ScanResponse {
    /// OK
    OK(String),
    /// Bad request
    BadRequest(String),
    /// Not found, or the bus is in use, or the tool failed
    NotFound(String),
}

/// What the contracts see of the outcome of a bus operation, whichever of
/// the three it was.
pub enum BusResponseView {
    OK(Seq<char>),
    BadRequest(Seq<char>),
    NotFound(Seq<char>),
}

impl View for GetResponse {
    type V = BusResponseView;

    open spec fn view(&self) -> BusResponseView {
        match self {
            GetResponse::OK(s) => BusResponseView::OK(s@),
            GetResponse::BadRequest(s) => BusResponseView::BadRequest(s@),
            GetResponse::NotFound(s) => BusResponseView::NotFound(s@),
        }
    }
}

impl View for GetMultiResponse {
    type V = BusResponseView;

    open spec fn view(&self) -> BusResponseView {
        match self {
            GetMultiResponse::OK(s) => BusResponseView::OK(s@),
            GetMultiResponse::BadRequest(s) => BusResponseView::BadRequest(s@),
            GetMultiResponse::NotFound(s) => BusResponseView::NotFound(s@),
        }
    }
}

impl View for ScanResponse {
    type V = BusResponseView;

    open spec fn view(&self) -> BusResponseView {
        match self {
            ScanResponse::OK(s) => BusResponseView::OK(s@),
            ScanResponse::BadRequest(s) => BusResponseView::BadRequest(s@),
            ScanResponse::NotFound(s) => BusResponseView::NotFound(s@),
        }
    }
}

/// Outcome of asking for the hat's identity.
#[derive(Debug, Clone, PartialEq)]
pub enum HatResponse {
    /// OK
    OK(Hat),
    /// Not found
    NotFound(String),
}

/// What the contracts see of a `HatResponse`.
pub enum HatResponseView {
    OK(HatView),
    NotFound(Seq<char>),
}

impl View for HatResponse {
    type V = HatResponseView;

    open spec fn view(&self) -> HatResponseView {
        match self {
            HatResponse::OK(h) => HatResponseView::OK(h@),
            HatResponse::NotFound(s) => HatResponseView::NotFound(s@),
        }
    }
}

/// Outcome of switching the bus power off.
#[derive(Debug, Clone, PartialEq)]
pub enum HatOffResponse {
    /// OK
    OK,
    /// Not found
    NotFound(String),
}

/// Outcome of switching the bus power on.
#[derive(Debug, Clone, PartialEq)]
pub enum HatOnResponse {
    /// OK
    OK,
    /// Not found
    NotFound(String),
}

/// What the contracts see of the outcome of a power operation.
pub enum PowerResponseView {
    OK,
    NotFound(Seq<char>),
}

impl View for HatOffResponse {
    type V = PowerResponseView;

    open spec fn view(&self) -> PowerResponseView {
        match self {
            HatOffResponse::OK => PowerResponseView::OK,
            HatOffResponse::NotFound(s) => PowerResponseView::NotFound(s@),
        }
    }
}

impl View for HatOnResponse {
    type V = PowerResponseView;

    open spec fn view(&self) -> PowerResponseView {
        match self {
            HatOnResponse::OK => PowerResponseView::OK,
            HatOnResponse::NotFound(s) => PowerResponseView::NotFound(s@),
        }
    }
}

} // verus!
