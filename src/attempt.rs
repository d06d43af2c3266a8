//! A payment attempt: its generation and its positional encoding into the
//! parameters of the insert statement, one per column, in column order.
use vstd::prelude::*;

use crate::entropy::{true_coins, Draw, Source};
use crate::json::{json_string_of, Canonical};
use crate::randr::Randr;
use crate::storage_enums::{
    AttemptStatus, AuthenticationType, CaptureMethod, Currency, MandateDataType, MandateDetails,
    Payload, PaymentExperience, PaymentMethod, PaymentMethodType,
};
use crate::timestamp::Timestamp;

verus! {

/// The number of columns, and so of parameters: the schema has one column
/// per field of `PaymentAttempt`, 56 in all, bound at positions 0 to 55.
pub const COLUMNS: usize = 56;

/// One positional parameter of the statement.
#[derive(Clone, Debug, PartialEq, Eq)]
pub enum Param {
    Null,
    Text(String),
    BigInt(i64),
    SmallInt(i16),
    Boolean(bool),
}

/// What a parameter holds.
pub enum ParamModel {
    Null,
    Text(Seq<char>),
    BigInt(i64),
    SmallInt(i16),
    Boolean(bool),
}

impl View for Param {
    type V = ParamModel;

    open spec fn view(&self) -> ParamModel {
        match self {
            Param::Null => ParamModel::Null,
            Param::Text(s) => ParamModel::Text(s@),
            Param::BigInt(n) => ParamModel::BigInt(*n),
            Param::SmallInt(n) => ParamModel::SmallInt(*n),
            Param::Boolean(b) => ParamModel::Boolean(*b),
        }
    }
}

/// A value bound as itself: an integer or a boolean.
pub trait Native {
    spec fn native(&self) -> ParamModel;

    fn to_param(&self) -> (r: Param)
        ensures
            r@ == self.native(),
    ;
}

impl Native for i64 {
    open spec fn native(&self) -> ParamModel {
        ParamModel::BigInt(*self)
    }

    fn to_param(&self) -> (r: Param) {
        Param::BigInt(*self)
    }
}

impl Native for i16 {
    open spec fn native(&self) -> ParamModel {
        ParamModel::SmallInt(*self)
    }

    fn to_param(&self) -> (r: Param) {
        Param::SmallInt(*self)
    }
}

impl Native for bool {
    open spec fn native(&self) -> ParamModel {
        ParamModel::Boolean(*self)
    }

    fn to_param(&self) -> (r: Param) {
        Param::Boolean(*self)
    }
}

/// The canonical text of the value in `column` could not be written.
#[derive(Clone, Copy, Debug, PartialEq, Eq)]
pub struct EncodeError {
    pub column: usize,
}

pub open spec fn opt_string_model(o: Option<String>) -> ParamModel {
    match o {
        Some(s) => ParamModel::Text(s@),
        None => ParamModel::Null,
    }
}

pub open spec fn opt_native_model<T: Native>(o: Option<T>) -> ParamModel {
    match o {
        Some(v) => v.native(),
        None => ParamModel::Null,
    }
}

pub open spec fn opt_canonical_model<T: Canonical>(o: Option<T>) -> ParamModel {
    match o {
        Some(v) => ParamModel::Text(v.canonical()),
        None => ParamModel::Null,
    }
}

/// The canonical text of `value`; an error names `column`.
pub fn enum_parse<T: Canonical>(value: &T, column: usize) -> (r: Result<String, EncodeError>)
    ensures
        r is Ok,
        r matches Ok(t) ==> t@ == value.canonical(),
{
    match value.json_text() {
        Ok(t) => Ok(t),
        Err(_) => Err(EncodeError { column }),
    }
}

/// An absent value as null, a present one as its canonical text.
pub fn for_opt<T: Canonical>(data: &Option<T>, column: usize) -> (r: Result<Param, EncodeError>)
    ensures
        r is Ok,
        r matches Ok(p) ==> p@ == opt_canonical_model(*data),
{
    match data {
        Some(v) => match enum_parse(v, column) {
            Ok(t) => Ok(Param::Text(t)),
            Err(e) => Err(e),
        },
        None => Ok(Param::Null),
    }
}

/// An absent string as null, a present one as itself.
pub fn opt_string(data: &Option<String>) -> (r: Param)
    ensures
        r@ == opt_string_model(*data),
{
    match data {
        Some(s) => Param::Text(s.clone()),
        None => Param::Null,
    }
}

/// An absent integer or boolean as null, a present one as itself.
pub fn e_for_opt<T: Native>(data: &Option<T>) -> (r: Param)
    ensures
        r@ == opt_native_model(*data),
{
    match data {
        Some(v) => v.to_param(),
        None => Param::Null,
    }
}

#[derive(Clone, Debug, PartialEq, Eq)]
pub struct PaymentAttempt {
    pub payment_id: String,
    pub merchant_id: String,
    pub attempt_id: String,
    pub status: AttemptStatus,
    pub amount: i64,
    pub currency: Option<Currency>,
    pub save_to_locker: Option<bool>,
    pub connector: Option<String>,
    pub error_message: Option<String>,
    pub offer_amount: Option<i64>,
    pub surcharge_amount: Option<i64>,
    pub tax_amount: Option<i64>,
    pub payment_method_id: Option<String>,
    pub payment_method: Option<PaymentMethod>,
    pub connector_transaction_id: Option<String>,
    pub capture_method: Option<CaptureMethod>,
    pub capture_on: Option<Timestamp>,
    pub confirm: bool,
    pub authentication_type: Option<AuthenticationType>,
    pub created_at: Timestamp,
    pub modified_at: Timestamp,
    pub last_synced: Option<Timestamp>,
    pub cancellation_reason: Option<String>,
    pub amount_to_capture: Option<i64>,
    pub mandate_id: Option<String>,
    pub browser_info: Option<Payload>,
    pub error_code: Option<String>,
    pub payment_token: Option<String>,
    pub connector_metadata: Option<Payload>,
    pub payment_experience: Option<PaymentExperience>,
    pub payment_method_type: Option<PaymentMethodType>,
    pub payment_method_data: Option<Payload>,
    pub business_sub_label: Option<String>,
    pub straight_through_algorithm: Option<Payload>,
    pub preprocessing_step_id: Option<String>,
    pub mandate_details: Option<MandateDataType>,
    pub error_reason: Option<String>,
    pub multiple_capture_count: Option<i16>,
    pub connector_response_reference_id: Option<String>,
    pub amount_capturable: i64,
    pub updated_by: String,
    pub merchant_connector_id: Option<String>,
    pub authentication_data: Option<Payload>,
    pub encoded_data: Option<String>,
    pub unified_code: Option<String>,
    pub unified_message: Option<String>,
    pub net_amount: Option<i64>,
    pub external_three_ds_authentication_attempted: Option<bool>,
    pub authentication_connector: Option<String>,
    pub authentication_id: Option<String>,
    pub mandate_data: Option<MandateDetails>,
    pub fingerprint_id: Option<String>,
    pub payment_method_billing_address_id: Option<String>,
    pub charge_id: Option<String>,
    pub client_source: Option<String>,
    pub client_version: Option<String>,
}

/// The columns whose field is not optional.
pub open spec fn is_mandatory_column(i: int) -> bool {
    i == 0 || i == 1 || i == 2 || i == 3 || i == 4 || i == 17 || i == 19 || i == 20 || i == 39 || i == 40
}

impl PaymentAttempt {
    /// The parameter of column `i`.
    pub open spec fn column(&self, i: usize) -> ParamModel {
        match i {
            0 => ParamModel::Text(self.payment_id@),
            1 => ParamModel::Text(self.merchant_id@),
            2 => ParamModel::Text(self.attempt_id@),
            3 => ParamModel::Text(self.status.canonical()),
            4 => self.amount.native(),
            5 => opt_canonical_model(self.currency),
            6 => opt_native_model(self.save_to_locker),
            7 => opt_string_model(self.connector),
            8 => opt_string_model(self.error_message),
            9 => opt_native_model(self.offer_amount),
            10 => opt_native_model(self.surcharge_amount),
            11 => opt_native_model(self.tax_amount),
            12 => opt_string_model(self.payment_method_id),
            13 => opt_canonical_model(self.payment_method),
            14 => opt_string_model(self.connector_transaction_id),
            15 => opt_canonical_model(self.capture_method),
            16 => opt_canonical_model(self.capture_on),
            17 => self.confirm.native(),
            18 => opt_canonical_model(self.authentication_type),
            19 => ParamModel::Text(self.created_at.canonical()),
            20 => ParamModel::Text(self.modified_at.canonical()),
            21 => opt_canonical_model(self.last_synced),
            22 => opt_string_model(self.cancellation_reason),
            23 => opt_native_model(self.amount_to_capture),
            24 => opt_string_model(self.mandate_id),
            25 => opt_canonical_model(self.browser_info),
            26 => opt_string_model(self.error_code),
            27 => opt_string_model(self.payment_token),
            28 => opt_canonical_model(self.connector_metadata),
            29 => opt_canonical_model(self.payment_experience),
            30 => opt_canonical_model(self.payment_method_type),
            31 => opt_canonical_model(self.payment_method_data),
            32 => opt_string_model(self.business_sub_label),
            33 => opt_canonical_model(self.straight_through_algorithm),
            34 => opt_string_model(self.preprocessing_step_id),
            35 => opt_canonical_model(self.mandate_details),
            36 => opt_string_model(self.error_reason),
            37 => opt_native_model(self.multiple_capture_count),
            38 => opt_string_model(self.connector_response_reference_id),
            39 => self.amount_capturable.native(),
            40 => ParamModel::Text(self.updated_by@),
            41 => opt_string_model(self.merchant_connector_id),
            42 => opt_canonical_model(self.authentication_data),
            43 => opt_string_model(self.encoded_data),
            44 => opt_string_model(self.unified_code),
            45 => opt_string_model(self.unified_message),
            46 => opt_native_model(self.net_amount),
            47 => opt_native_model(self.external_three_ds_authentication_attempted),
            48 => opt_string_model(self.authentication_connector),
            49 => opt_string_model(self.authentication_id),
            50 => opt_canonical_model(self.mandate_data),
            51 => opt_string_model(self.fingerprint_id),
            52 => opt_string_model(self.payment_method_billing_address_id),
            53 => opt_string_model(self.charge_id),
            54 => opt_string_model(self.client_source),
            _ => opt_string_model(self.client_version),
        }
    }

    /// `v` holds the parameters of the first `v.len()` columns.
    pub open spec fn encodes_prefix(&self, v: Seq<Param>) -> bool {
        forall|i: int| 0 <= i < v.len() ==> (#[trigger] v[i])@ == self.column(i as usize)
    }

    /// Appends the parameters of columns 0 to 13.
    fn encode_columns_0_13(&self, v: &mut Vec<Param>) -> (r: Result<(), EncodeError>)
        requires
            old(v)@.len() == 0,
            self.encodes_prefix(old(v)@),
        ensures
            r is Ok,
            final(v)@.len() == 14,
            self.encodes_prefix(final(v)@),
    {
        v.push(Param::Text(self.payment_id.clone()));
        assert(self.encodes_prefix(v@));
        v.push(Param::Text(self.merchant_id.clone()));
        assert(self.encodes_prefix(v@));
        v.push(Param::Text(self.attempt_id.clone()));
        assert(self.encodes_prefix(v@));
        let t = match enum_parse(&self.status, 3) {
            Ok(t) => t,
            Err(e) => return Err(e),
        };
        v.push(Param::Text(t));
        assert(self.encodes_prefix(v@));
        v.push(self.amount.to_param());
        assert(self.encodes_prefix(v@));
        let p = match for_opt(&self.currency, 5) {
            Ok(p) => p,
            Err(e) => return Err(e),
        };
        v.push(p);
        assert(self.encodes_prefix(v@));
        v.push(e_for_opt(&self.save_to_locker));
        assert(self.encodes_prefix(v@));
        v.push(opt_string(&self.connector));
        assert(self.encodes_prefix(v@));
        v.push(opt_string(&self.error_message));
        assert(self.encodes_prefix(v@));
        v.push(e_for_opt(&self.offer_amount));
        assert(self.encodes_prefix(v@));
        v.push(e_for_opt(&self.surcharge_amount));
        assert(self.encodes_prefix(v@));
        v.push(e_for_opt(&self.tax_amount));
        assert(self.encodes_prefix(v@));
        v.push(opt_string(&self.payment_method_id));
        assert(self.encodes_prefix(v@));
        let p = match for_opt(&self.payment_method, 13) {
            Ok(p) => p,
            Err(e) => return Err(e),
        };
        v.push(p);
        assert(self.encodes_prefix(v@));
        Ok(())
    }

    /// Appends the parameters of columns 14 to 27.
    fn encode_columns_14_27(&self, v: &mut Vec<Param>) -> (r: Result<(), EncodeError>)
        requires
            old(v)@.len() == 14,
            self.encodes_prefix(old(v)@),
        ensures
            r is Ok,
            final(v)@.len() == 28,
            self.encodes_prefix(final(v)@),
    {
        v.push(opt_string(&self.connector_transaction_id));
        assert(self.encodes_prefix(v@));
        let p = match for_opt(&self.capture_method, 15) {
            Ok(p) => p,
            Err(e) => return Err(e),
        };
        v.push(p);
        assert(self.encodes_prefix(v@));
        let p = match for_opt(&self.capture_on, 16) {
            Ok(p) => p,
            Err(e) => return Err(e),
        };
        v.push(p);
        assert(self.encodes_prefix(v@));
        v.push(self.confirm.to_param());
        assert(self.encodes_prefix(v@));
        let p = match for_opt(&self.authentication_type, 18) {
            Ok(p) => p,
            Err(e) => return Err(e),
        };
        v.push(p);
        assert(self.encodes_prefix(v@));
        let t = match enum_parse(&self.created_at, 19) {
            Ok(t) => t,
            Err(e) => return Err(e),
        };
        v.push(Param::Text(t));
        assert(self.encodes_prefix(v@));
        let t = match enum_parse(&self.modified_at, 20) {
            Ok(t) => t,
            Err(e) => return Err(e),
        };
        v.push(Param::Text(t));
        assert(self.encodes_prefix(v@));
        let p = match for_opt(&self.last_synced, 21) {
            Ok(p) => p,
            Err(e) => return Err(e),
        };
        v.push(p);
        assert(self.encodes_prefix(v@));
        v.push(opt_string(&self.cancellation_reason));
        assert(self.encodes_prefix(v@));
        v.push(e_for_opt(&self.amount_to_capture));
        assert(self.encodes_prefix(v@));
        v.push(opt_string(&self.mandate_id));
        assert(self.encodes_prefix(v@));
        let p = match for_opt(&self.browser_info, 25) {
            Ok(p) => p,
            Err(e) => return Err(e),
        };
        v.push(p);
        assert(self.encodes_prefix(v@));
        v.push(opt_string(&self.error_code));
        assert(self.encodes_prefix(v@));
        v.push(opt_string(&self.payment_token));
        assert(self.encodes_prefix(v@));
        Ok(())
    }

    /// Appends the parameters of columns 28 to 41.
    fn encode_columns_28_41(&self, v: &mut Vec<Param>) -> (r: Result<(), EncodeError>)
        requires
            old(v)@.len() == 28,
            self.encodes_prefix(old(v)@),
        ensures
            r is Ok,
            final(v)@.len() == 42,
            self.encodes_prefix(final(v)@),
    {
        let p = match for_opt(&self.connector_metadata, 28) {
            Ok(p) => p,
            Err(e) => return Err(e),
        };
        v.push(p);
        assert(self.encodes_prefix(v@));
        let p = match for_opt(&self.payment_experience, 29) {
            Ok(p) => p,
            Err(e) => return Err(e),
        };
        v.push(p);
        assert(self.encodes_prefix(v@));
        let p = match for_opt(&self.payment_method_type, 30) {
            Ok(p) => p,
            Err(e) => return Err(e),
        };
        v.push(p);
        assert(self.encodes_prefix(v@));
        let p = match for_opt(&self.payment_method_data, 31) {
            Ok(p) => p,
            Err(e) => return Err(e),
        };
        v.push(p);
        assert(self.encodes_prefix(v@));
        v.push(opt_string(&self.business_sub_label));
        assert(self.encodes_prefix(v@));
        let p = match for_opt(&self.straight_through_algorithm, 33) {
            Ok(p) => p,
            Err(e) => return Err(e),
        };
        v.push(p);
        assert(self.encodes_prefix(v@));
        v.push(opt_string(&self.preprocessing_step_id));
        assert(self.encodes_prefix(v@));
        let p = match for_opt(&self.mandate_details, 35) {
            Ok(p) => p,
            Err(e) => return Err(e),
        };
        v.push(p);
        assert(self.encodes_prefix(v@));
        v.push(opt_string(&self.error_reason));
        assert(self.encodes_prefix(v@));
        v.push(e_for_opt(&self.multiple_capture_count));
        assert(self.encodes_prefix(v@));
        v.push(opt_string(&self.connector_response_reference_id));
        assert(self.encodes_prefix(v@));
        v.push(self.amount_capturable.to_param());
        assert(self.encodes_prefix(v@));
        v.push(Param::Text(self.updated_by.clone()));
        assert(self.encodes_prefix(v@));
        v.push(opt_string(&self.merchant_connector_id));
        assert(self.encodes_prefix(v@));
        Ok(())
    }

    /// Appends the parameters of columns 42 to 55.
    fn encode_columns_42_55(&self, v: &mut Vec<Param>) -> (r: Result<(), EncodeError>)
        requires
            old(v)@.len() == 42,
            self.encodes_prefix(old(v)@),
        ensures
            r is Ok,
            final(v)@.len() == 56,
            self.encodes_prefix(final(v)@),
    {
        let p = match for_opt(&self.authentication_data, 42) {
            Ok(p) => p,
            Err(e) => return Err(e),
        };
        v.push(p);
        assert(self.encodes_prefix(v@));
        v.push(opt_string(&self.encoded_data));
        assert(self.encodes_prefix(v@));
        v.push(opt_string(&self.unified_code));
        assert(self.encodes_prefix(v@));
        v.push(opt_string(&self.unified_message));
        assert(self.encodes_prefix(v@));
        v.push(e_for_opt(&self.net_amount));
        assert(self.encodes_prefix(v@));
        v.push(e_for_opt(&self.external_three_ds_authentication_attempted));
        assert(self.encodes_prefix(v@));
        v.push(opt_string(&self.authentication_connector));
        assert(self.encodes_prefix(v@));
        v.push(opt_string(&self.authentication_id));
        assert(self.encodes_prefix(v@));
        let p = match for_opt(&self.mandate_data, 50) {
            Ok(p) => p,
            Err(e) => return Err(e),
        };
        v.push(p);
        assert(self.encodes_prefix(v@));
        v.push(opt_string(&self.fingerprint_id));
        assert(self.encodes_prefix(v@));
        v.push(opt_string(&self.payment_method_billing_address_id));
        assert(self.encodes_prefix(v@));
        v.push(opt_string(&self.charge_id));
        assert(self.encodes_prefix(v@));
        v.push(opt_string(&self.client_source));
        assert(self.encodes_prefix(v@));
        v.push(opt_string(&self.client_version));
        assert(self.encodes_prefix(v@));
        Ok(())
    }

    /// The statement's parameters: one per column, in column order, an
    /// absent optional value as null.
    pub fn populate_statement(&self) -> (r: Result<Vec<Param>, EncodeError>)
        ensures
            r is Ok,
            r matches Ok(v) ==> v@.len() == COLUMNS && self.encodes_prefix(v@),
    {
        let mut v: Vec<Param> = Vec::new();
        match self.encode_columns_0_13(&mut v) {
            Ok(()) => {},
            Err(e) => return Err(e),
        }
        match self.encode_columns_14_27(&mut v) {
            Ok(()) => {},
            Err(e) => return Err(e),
        }
        match self.encode_columns_28_41(&mut v) {
            Ok(()) => {},
            Err(e) => return Err(e),
        }
        match self.encode_columns_42_55(&mut v) {
            Ok(()) => {},
            Err(e) => return Err(e),
        }
        Ok(v)
    }
}
impl PaymentAttempt {
    /// Every optional field is absent.
    pub open spec fn has_no_optionals(&self) -> bool {
        &&& self.currency is None
        &&& self.save_to_locker is None
        &&& self.connector is None
        &&& self.error_message is None
        &&& self.offer_amount is None
        &&& self.surcharge_amount is None
        &&& self.tax_amount is None
        &&& self.payment_method_id is None
        &&& self.payment_method is None
        &&& self.connector_transaction_id is None
        &&& self.capture_method is None
        &&& self.capture_on is None
        &&& self.authentication_type is None
        &&& self.last_synced is None
        &&& self.cancellation_reason is None
        &&& self.amount_to_capture is None
        &&& self.mandate_id is None
        &&& self.browser_info is None
        &&& self.error_code is None
        &&& self.payment_token is None
        &&& self.connector_metadata is None
        &&& self.payment_experience is None
        &&& self.payment_method_type is None
        &&& self.payment_method_data is None
        &&& self.business_sub_label is None
        &&& self.straight_through_algorithm is None
        &&& self.preprocessing_step_id is None
        &&& self.mandate_details is None
        &&& self.error_reason is None
        &&& self.multiple_capture_count is None
        &&& self.connector_response_reference_id is None
        &&& self.merchant_connector_id is None
        &&& self.authentication_data is None
        &&& self.encoded_data is None
        &&& self.unified_code is None
        &&& self.unified_message is None
        &&& self.net_amount is None
        &&& self.external_three_ds_authentication_attempted is None
        &&& self.authentication_connector is None
        &&& self.authentication_id is None
        &&& self.mandate_data is None
        &&& self.fingerprint_id is None
        &&& self.payment_method_billing_address_id is None
        &&& self.charge_id is None
        &&& self.client_source is None
        &&& self.client_version is None
    }

    /// Every timestamp of the record is `t`.
    pub open spec fn stamped_with(&self, t: Timestamp) -> bool {
        &&& self.created_at == t
        &&& self.modified_at == t
        &&& self.capture_on matches Some(d) ==> d == t
        &&& self.last_synced matches Some(d) ==> d == t
    }
}

impl Randr for PaymentAttempt {
    open spec fn draws_nothing() -> bool {
        false
    }

    open spec fn generated(&self) -> bool {
        self.payment_id.generated()
        && self.merchant_id.generated()
        && self.attempt_id.generated()
        && self.status.generated()
        && self.amount.generated()
        && self.currency.generated()
        && self.save_to_locker.generated()
        && self.connector.generated()
        && self.error_message.generated()
        && self.offer_amount.generated()
        && self.surcharge_amount.generated()
        && self.tax_amount.generated()
        && self.payment_method_id.generated()
        && self.payment_method.generated()
        && self.connector_transaction_id.generated()
        && self.capture_method.generated()
        && self.capture_on.generated()
        && self.confirm.generated()
        && self.authentication_type.generated()
        && self.created_at.generated()
        && self.modified_at.generated()
        && self.last_synced.generated()
        && self.cancellation_reason.generated()
        && self.amount_to_capture.generated()
        && self.mandate_id.generated()
        && self.browser_info.generated()
        && self.error_code.generated()
        && self.payment_token.generated()
        && self.connector_metadata.generated()
        && self.payment_experience.generated()
        && self.payment_method_type.generated()
        && self.payment_method_data.generated()
        && self.business_sub_label.generated()
        && self.straight_through_algorithm.generated()
        && self.preprocessing_step_id.generated()
        && self.mandate_details.generated()
        && self.error_reason.generated()
        && self.multiple_capture_count.generated()
        && self.connector_response_reference_id.generated()
        && self.amount_capturable.generated()
        && self.updated_by.generated()
        && self.merchant_connector_id.generated()
        && self.authentication_data.generated()
        && self.encoded_data.generated()
        && self.unified_code.generated()
        && self.unified_message.generated()
        && self.net_amount.generated()
        && self.external_three_ds_authentication_attempted.generated()
        && self.authentication_connector.generated()
        && self.authentication_id.generated()
        && self.mandate_data.generated()
        && self.fingerprint_id.generated()
        && self.payment_method_billing_address_id.generated()
        && self.charge_id.generated()
        && self.client_source.generated()
        && self.client_version.generated()
    }

    /// Without a true coin every optional field is absent, and the
    /// timestamps read the source's fixed clock, if it has one.
    open spec fn drawn_by(&self, before: Seq<Draw>, after: Seq<Draw>, clock: Option<Timestamp>) -> bool {
        &&& true_coins(after) == true_coins(before) ==> self.has_no_optionals()
        &&& clock matches Some(t) ==> self.stamped_with(t)
    }

    /// Each field by its own rule, independently of the others.
    fn default<S: Source>(src: &mut S) -> (r: Self) {
        let payment_id = <String as Randr>::default(src);
        let merchant_id = <String as Randr>::default(src);
        let attempt_id = <String as Randr>::default(src);
        let status = <AttemptStatus as Randr>::default(src);
        let amount = <i64 as Randr>::default(src);
        let currency = <Option<Currency> as Randr>::default(src);
        let save_to_locker = <Option<bool> as Randr>::default(src);
        let connector = <Option<String> as Randr>::default(src);
        let error_message = <Option<String> as Randr>::default(src);
        let offer_amount = <Option<i64> as Randr>::default(src);
        let surcharge_amount = <Option<i64> as Randr>::default(src);
        let tax_amount = <Option<i64> as Randr>::default(src);
        let payment_method_id = <Option<String> as Randr>::default(src);
        let payment_method = <Option<PaymentMethod> as Randr>::default(src);
        let connector_transaction_id = <Option<String> as Randr>::default(src);
        let capture_method = <Option<CaptureMethod> as Randr>::default(src);
        let capture_on = <Option<Timestamp> as Randr>::default(src);
        let confirm = <bool as Randr>::default(src);
        let authentication_type = <Option<AuthenticationType> as Randr>::default(src);
        let created_at = <Timestamp as Randr>::default(src);
        let modified_at = <Timestamp as Randr>::default(src);
        let last_synced = <Option<Timestamp> as Randr>::default(src);
        let cancellation_reason = <Option<String> as Randr>::default(src);
        let amount_to_capture = <Option<i64> as Randr>::default(src);
        let mandate_id = <Option<String> as Randr>::default(src);
        let browser_info = <Option<Payload> as Randr>::default(src);
        let error_code = <Option<String> as Randr>::default(src);
        let payment_token = <Option<String> as Randr>::default(src);
        let connector_metadata = <Option<Payload> as Randr>::default(src);
        let payment_experience = <Option<PaymentExperience> as Randr>::default(src);
        let payment_method_type = <Option<PaymentMethodType> as Randr>::default(src);
        let payment_method_data = <Option<Payload> as Randr>::default(src);
        let business_sub_label = <Option<String> as Randr>::default(src);
        let straight_through_algorithm = <Option<Payload> as Randr>::default(src);
        let preprocessing_step_id = <Option<String> as Randr>::default(src);
        let mandate_details = <Option<MandateDataType> as Randr>::default(src);
        let error_reason = <Option<String> as Randr>::default(src);
        let multiple_capture_count = <Option<i16> as Randr>::default(src);
        let connector_response_reference_id = <Option<String> as Randr>::default(src);
        let amount_capturable = <i64 as Randr>::default(src);
        let updated_by = <String as Randr>::default(src);
        let merchant_connector_id = <Option<String> as Randr>::default(src);
        let authentication_data = <Option<Payload> as Randr>::default(src);
        let encoded_data = <Option<String> as Randr>::default(src);
        let unified_code = <Option<String> as Randr>::default(src);
        let unified_message = <Option<String> as Randr>::default(src);
        let net_amount = <Option<i64> as Randr>::default(src);
        let external_three_ds_authentication_attempted = <Option<bool> as Randr>::default(src);
        let authentication_connector = <Option<String> as Randr>::default(src);
        let authentication_id = <Option<String> as Randr>::default(src);
        let mandate_data = <Option<MandateDetails> as Randr>::default(src);
        let fingerprint_id = <Option<String> as Randr>::default(src);
        let payment_method_billing_address_id = <Option<String> as Randr>::default(src);
        let charge_id = <Option<String> as Randr>::default(src);
        let client_source = <Option<String> as Randr>::default(src);
        let client_version = <Option<String> as Randr>::default(src);
        let r = PaymentAttempt {
            payment_id,
            merchant_id,
            attempt_id,
            status,
            amount,
            currency,
            save_to_locker,
            connector,
            error_message,
            offer_amount,
            surcharge_amount,
            tax_amount,
            payment_method_id,
            payment_method,
            connector_transaction_id,
            capture_method,
            capture_on,
            confirm,
            authentication_type,
            created_at,
            modified_at,
            last_synced,
            cancellation_reason,
            amount_to_capture,
            mandate_id,
            browser_info,
            error_code,
            payment_token,
            connector_metadata,
            payment_experience,
            payment_method_type,
            payment_method_data,
            business_sub_label,
            straight_through_algorithm,
            preprocessing_step_id,
            mandate_details,
            error_reason,
            multiple_capture_count,
            connector_response_reference_id,
            amount_capturable,
            updated_by,
            merchant_connector_id,
            authentication_data,
            encoded_data,
            unified_code,
            unified_message,
            net_amount,
            external_three_ds_authentication_attempted,
            authentication_connector,
            authentication_id,
            mandate_data,
            fingerprint_id,
            payment_method_billing_address_id,
            charge_id,
            client_source,
            client_version,
        };
        assert(r.drawn_by(old(src).draws(), src.draws(), old(src).fixed_clock()));
        assert(!<PaymentAttempt as Randr>::draws_nothing());
        r
    }
}


/// A column whose field is not optional is never bound to null.
pub proof fn lemma_mandatory_column_not_null(rec: PaymentAttempt, i: usize)
    requires
        i < COLUMNS,
        is_mandatory_column(i as int),
    ensures
        !(rec.column(i) is Null),
{
}

/// In a record of the default rule, each enumeration column is null or holds
/// the canonical default variant of its enumeration.
pub proof fn lemma_generated_enum_columns(rec: PaymentAttempt)
    requires
        rec.generated(),
    ensures
        rec.column(3) == ParamModel::Text(json_string_of("Started"@)),
        rec.column(5) is Null || rec.column(5) == ParamModel::Text(json_string_of("USD"@)),
        rec.column(13) is Null || rec.column(13) == ParamModel::Text(json_string_of("Card"@)),
        rec.column(15) is Null || rec.column(15) == ParamModel::Text(json_string_of("Automatic"@)),
        rec.column(18) is Null || rec.column(18) == ParamModel::Text(json_string_of("ThreeDs"@)),
        rec.column(29) is Null || rec.column(29) == ParamModel::Text(json_string_of("RedirectToUrl"@)),
        rec.column(30) is Null || rec.column(30) == ParamModel::Text(json_string_of("CardRedirect"@)),
{
}


/// The native type of a column.
#[derive(Clone, Copy, Debug, PartialEq, Eq)]
pub enum ColumnKind {
    Text,
    BigInt,
    SmallInt,
    Boolean,
}

/// A parameter that a column of kind `k` accepts: null, or a value of that kind.
pub open spec fn fits(p: ParamModel, k: ColumnKind) -> bool {
    match p {
        ParamModel::Null => true,
        ParamModel::Text(_) => k == ColumnKind::Text,
        ParamModel::BigInt(_) => k == ColumnKind::BigInt,
        ParamModel::SmallInt(_) => k == ColumnKind::SmallInt,
        ParamModel::Boolean(_) => k == ColumnKind::Boolean,
    }
}

/// The name of column `i`.
pub open spec fn spec_column_name(i: usize) -> Seq<char> {
    match i {
        0 => "payment_id"@,
        1 => "merchant_id"@,
        2 => "attempt_id"@,
        3 => "status"@,
        4 => "amount"@,
        5 => "currency"@,
        6 => "save_to_locker"@,
        7 => "connector"@,
        8 => "error_message"@,
        9 => "offer_amount"@,
        10 => "surcharge_amount"@,
        11 => "tax_amount"@,
        12 => "payment_method_id"@,
        13 => "payment_method"@,
        14 => "connector_transaction_id"@,
        15 => "capture_method"@,
        16 => "capture_on"@,
        17 => "confirm"@,
        18 => "authentication_type"@,
        19 => "created_at"@,
        20 => "modified_at"@,
        21 => "last_synced"@,
        22 => "cancellation_reason"@,
        23 => "amount_to_capture"@,
        24 => "mandate_id"@,
        25 => "browser_info"@,
        26 => "error_code"@,
        27 => "payment_token"@,
        28 => "connector_metadata"@,
        29 => "payment_experience"@,
        30 => "payment_method_type"@,
        31 => "payment_method_data"@,
        32 => "business_sub_label"@,
        33 => "straight_through_algorithm"@,
        34 => "preprocessing_step_id"@,
        35 => "mandate_details"@,
        36 => "error_reason"@,
        37 => "multiple_capture_count"@,
        38 => "connector_response_reference_id"@,
        39 => "amount_capturable"@,
        40 => "updated_by"@,
        41 => "merchant_connector_id"@,
        42 => "authentication_data"@,
        43 => "encoded_data"@,
        44 => "unified_code"@,
        45 => "unified_message"@,
        46 => "net_amount"@,
        47 => "external_three_ds_authentication_attempted"@,
        48 => "authentication_connector"@,
        49 => "authentication_id"@,
        50 => "mandate_data"@,
        51 => "fingerprint_id"@,
        52 => "payment_method_billing_address_id"@,
        53 => "charge_id"@,
        54 => "client_source"@,
        _ => "client_version"@,
    }
}

/// The native type of column `i`.
pub open spec fn spec_column_kind(i: usize) -> ColumnKind {
    match i {
        0 => ColumnKind::Text,
        1 => ColumnKind::Text,
        2 => ColumnKind::Text,
        3 => ColumnKind::Text,
        4 => ColumnKind::BigInt,
        5 => ColumnKind::Text,
        6 => ColumnKind::Boolean,
        7 => ColumnKind::Text,
        8 => ColumnKind::Text,
        9 => ColumnKind::BigInt,
        10 => ColumnKind::BigInt,
        11 => ColumnKind::BigInt,
        12 => ColumnKind::Text,
        13 => ColumnKind::Text,
        14 => ColumnKind::Text,
        15 => ColumnKind::Text,
        16 => ColumnKind::Text,
        17 => ColumnKind::Boolean,
        18 => ColumnKind::Text,
        19 => ColumnKind::Text,
        20 => ColumnKind::Text,
        21 => ColumnKind::Text,
        22 => ColumnKind::Text,
        23 => ColumnKind::BigInt,
        24 => ColumnKind::Text,
        25 => ColumnKind::Text,
        26 => ColumnKind::Text,
        27 => ColumnKind::Text,
        28 => ColumnKind::Text,
        29 => ColumnKind::Text,
        30 => ColumnKind::Text,
        31 => ColumnKind::Text,
        32 => ColumnKind::Text,
        33 => ColumnKind::Text,
        34 => ColumnKind::Text,
        35 => ColumnKind::Text,
        36 => ColumnKind::Text,
        37 => ColumnKind::SmallInt,
        38 => ColumnKind::Text,
        39 => ColumnKind::BigInt,
        40 => ColumnKind::Text,
        41 => ColumnKind::Text,
        42 => ColumnKind::Text,
        43 => ColumnKind::Text,
        44 => ColumnKind::Text,
        45 => ColumnKind::Text,
        46 => ColumnKind::BigInt,
        47 => ColumnKind::Boolean,
        48 => ColumnKind::Text,
        49 => ColumnKind::Text,
        50 => ColumnKind::Text,
        51 => ColumnKind::Text,
        52 => ColumnKind::Text,
        53 => ColumnKind::Text,
        54 => ColumnKind::Text,
        _ => ColumnKind::Text,
    }
}

/// The name of column `i`: the field that it holds.
pub fn column_name(i: usize) -> (r: &'static str)
    requires
        i < COLUMNS,
    ensures
        r@ == spec_column_name(i),
{
    match i {
        0 => "payment_id",
        1 => "merchant_id",
        2 => "attempt_id",
        3 => "status",
        4 => "amount",
        5 => "currency",
        6 => "save_to_locker",
        7 => "connector",
        8 => "error_message",
        9 => "offer_amount",
        10 => "surcharge_amount",
        11 => "tax_amount",
        12 => "payment_method_id",
        13 => "payment_method",
        14 => "connector_transaction_id",
        15 => "capture_method",
        16 => "capture_on",
        17 => "confirm",
        18 => "authentication_type",
        19 => "created_at",
        20 => "modified_at",
        21 => "last_synced",
        22 => "cancellation_reason",
        23 => "amount_to_capture",
        24 => "mandate_id",
        25 => "browser_info",
        26 => "error_code",
        27 => "payment_token",
        28 => "connector_metadata",
        29 => "payment_experience",
        30 => "payment_method_type",
        31 => "payment_method_data",
        32 => "business_sub_label",
        33 => "straight_through_algorithm",
        34 => "preprocessing_step_id",
        35 => "mandate_details",
        36 => "error_reason",
        37 => "multiple_capture_count",
        38 => "connector_response_reference_id",
        39 => "amount_capturable",
        40 => "updated_by",
        41 => "merchant_connector_id",
        42 => "authentication_data",
        43 => "encoded_data",
        44 => "unified_code",
        45 => "unified_message",
        46 => "net_amount",
        47 => "external_three_ds_authentication_attempted",
        48 => "authentication_connector",
        49 => "authentication_id",
        50 => "mandate_data",
        51 => "fingerprint_id",
        52 => "payment_method_billing_address_id",
        53 => "charge_id",
        54 => "client_source",
        _ => "client_version",
    }
}

/// The native type of column `i`.
pub fn column_kind(i: usize) -> (r: ColumnKind)
    requires
        i < COLUMNS,
    ensures
        r == spec_column_kind(i),
{
    match i {
        0 => ColumnKind::Text,
        1 => ColumnKind::Text,
        2 => ColumnKind::Text,
        3 => ColumnKind::Text,
        4 => ColumnKind::BigInt,
        5 => ColumnKind::Text,
        6 => ColumnKind::Boolean,
        7 => ColumnKind::Text,
        8 => ColumnKind::Text,
        9 => ColumnKind::BigInt,
        10 => ColumnKind::BigInt,
        11 => ColumnKind::BigInt,
        12 => ColumnKind::Text,
        13 => ColumnKind::Text,
        14 => ColumnKind::Text,
        15 => ColumnKind::Text,
        16 => ColumnKind::Text,
        17 => ColumnKind::Boolean,
        18 => ColumnKind::Text,
        19 => ColumnKind::Text,
        20 => ColumnKind::Text,
        21 => ColumnKind::Text,
        22 => ColumnKind::Text,
        23 => ColumnKind::BigInt,
        24 => ColumnKind::Text,
        25 => ColumnKind::Text,
        26 => ColumnKind::Text,
        27 => ColumnKind::Text,
        28 => ColumnKind::Text,
        29 => ColumnKind::Text,
        30 => ColumnKind::Text,
        31 => ColumnKind::Text,
        32 => ColumnKind::Text,
        33 => ColumnKind::Text,
        34 => ColumnKind::Text,
        35 => ColumnKind::Text,
        36 => ColumnKind::Text,
        37 => ColumnKind::SmallInt,
        38 => ColumnKind::Text,
        39 => ColumnKind::BigInt,
        40 => ColumnKind::Text,
        41 => ColumnKind::Text,
        42 => ColumnKind::Text,
        43 => ColumnKind::Text,
        44 => ColumnKind::Text,
        45 => ColumnKind::Text,
        46 => ColumnKind::BigInt,
        47 => ColumnKind::Boolean,
        48 => ColumnKind::Text,
        49 => ColumnKind::Text,
        50 => ColumnKind::Text,
        51 => ColumnKind::Text,
        52 => ColumnKind::Text,
        53 => ColumnKind::Text,
        54 => ColumnKind::Text,
        _ => ColumnKind::Text,
    }
}

/// Every parameter fits the native type of its column.
pub proof fn lemma_columns_fit_schema(rec: PaymentAttempt, i: usize)
    requires
        i < COLUMNS,
    ensures
        fits(rec.column(i), spec_column_kind(i)),
{
}


/// Whether the field of column `i` holds a value: always for a field that is
/// not optional.
pub open spec fn is_present(rec: PaymentAttempt, i: usize) -> bool {
    match i {
        5 => rec.currency is Some,
        6 => rec.save_to_locker is Some,
        7 => rec.connector is Some,
        8 => rec.error_message is Some,
        9 => rec.offer_amount is Some,
        10 => rec.surcharge_amount is Some,
        11 => rec.tax_amount is Some,
        12 => rec.payment_method_id is Some,
        13 => rec.payment_method is Some,
        14 => rec.connector_transaction_id is Some,
        15 => rec.capture_method is Some,
        16 => rec.capture_on is Some,
        18 => rec.authentication_type is Some,
        21 => rec.last_synced is Some,
        22 => rec.cancellation_reason is Some,
        23 => rec.amount_to_capture is Some,
        24 => rec.mandate_id is Some,
        25 => rec.browser_info is Some,
        26 => rec.error_code is Some,
        27 => rec.payment_token is Some,
        28 => rec.connector_metadata is Some,
        29 => rec.payment_experience is Some,
        30 => rec.payment_method_type is Some,
        31 => rec.payment_method_data is Some,
        32 => rec.business_sub_label is Some,
        33 => rec.straight_through_algorithm is Some,
        34 => rec.preprocessing_step_id is Some,
        35 => rec.mandate_details is Some,
        36 => rec.error_reason is Some,
        37 => rec.multiple_capture_count is Some,
        38 => rec.connector_response_reference_id is Some,
        41 => rec.merchant_connector_id is Some,
        42 => rec.authentication_data is Some,
        43 => rec.encoded_data is Some,
        44 => rec.unified_code is Some,
        45 => rec.unified_message is Some,
        46 => rec.net_amount is Some,
        47 => rec.external_three_ds_authentication_attempted is Some,
        48 => rec.authentication_connector is Some,
        49 => rec.authentication_id is Some,
        50 => rec.mandate_data is Some,
        51 => rec.fingerprint_id is Some,
        52 => rec.payment_method_billing_address_id is Some,
        53 => rec.charge_id is Some,
        54 => rec.client_source is Some,
        55 => rec.client_version is Some,
        _ => true,
    }
}

/// A column is bound to null exactly when its field is an absent optional
/// value: absence is never replaced by a default, nor a value by null.
pub proof fn lemma_null_iff_absent(rec: PaymentAttempt, i: usize)
    requires
        i < COLUMNS,
    ensures
        rec.column(i) is Null <==> !is_present(rec, i),
{
}

/// When no coin drawn while generating a record comes up true, every optional
/// field is absent while the mandatory ones are drawn as usual; with a fixed
/// clock, both timestamps are its instant.
pub proof fn lemma_false_coins_leave_optionals_absent(
    rec: PaymentAttempt,
    before: Seq<Draw>,
    after: Seq<Draw>,
    clock: Option<Timestamp>,
)
    requires
        rec.drawn_by(before, after, clock),
        true_coins(after) == true_coins(before),
    ensures
        rec.has_no_optionals(),
        forall|i: usize| i < COLUMNS && !is_mandatory_column(i as int) ==> #[trigger] rec.column(i) is Null,
        clock matches Some(t) ==> rec.created_at == t && rec.modified_at == t,
{
    assert forall|i: usize| i < COLUMNS && !is_mandatory_column(i as int) implies #[trigger] rec.column(i) is Null by {
        lemma_null_iff_absent(rec, i);
    }
}

} // verus!
