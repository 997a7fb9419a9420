//! The App Store Server API error catalogue and the error its client returns.
use vstd::prelude::*;
use crate::api_client::error::{api_client_error_text, ApiClientError, ConfigurationError};
use crate::api_client::requests::{
    empty_query, environment_base_url, history_query, json_body, no_query, nonempty_pair, nonempty_query, optional_pair,
    optional_query, path_around, path_with, path_with_two, plan, png_body, png_content_type, status_query,
    subscription_status_query, transaction_history_query, with_json, xcode_refusal, ApiClient, ApiRequest,
    Environment, HttpMethod, TransactionHistoryRequest,
};

verus! {

/// The error returned by the App Store Server API client: the HTTP-level error and
/// the catalogued API error its raw code stands for.
#[derive(Debug, Clone)]
pub struct AppStoreServerApiClientError {
    inner: ApiClientError,
    api_error: ApiErrorCode,
}

impl AppStoreServerApiClientError {
    /// The HTTP-level error this error wraps.
    pub closed spec fn inner_error(&self) -> ApiClientError {
        self.inner
    }

    /// The catalogued API error.
    pub closed spec fn catalogued(&self) -> ApiErrorCode {
        self.api_error
    }

    pub fn status(&self) -> (s: u16)
        ensures
            s == self.inner_error()@.0,
    {
        self.inner.status()
    }

    pub fn raw_code(&self) -> (c: Option<i64>)
        ensures
            c == self.inner_error()@.1,
    {
        self.inner.raw_code()
    }

    pub fn message(&self) -> (m: Option<&str>)
        ensures
            m is Some <==> self.inner_error()@.2 is Some,
            m matches Some(t) ==> self.inner_error()@.2 == Some(t@),
    {
        self.inner.message()
    }

    pub fn api_error(&self) -> (e: ApiErrorCode)
        ensures
            e == self.catalogued(),
    {
        self.api_error
    }

    pub fn inner(&self) -> (i: &ApiClientError)
        ensures
            *i == self.inner_error(),
    {
        &self.inner
    }

    /// The rendered error: the HTTP-level error, then the catalogued API error's name.
    pub fn to_string(&self) -> (s: String)
        ensures
            s@ == api_client_error_text(self.inner_error()@) + ", API Error: "@ + self.catalogued().variant_name(),
    {
        let mut s = self.inner.to_string();
        s.append(", API Error: ");
        s.append(self.api_error.name());
        s
    }
}

impl From<ApiClientError> for AppStoreServerApiClientError {
    fn from(inner: ApiClientError) -> (r: Self)
        ensures
            r.inner_error() == inner,
            r.catalogued() == match inner@.1 {
                Some(code) => ApiErrorCode::variant_of_code(code),
                None => ApiErrorCode::Unknown,
            },
    {
        let api_error = match inner.raw_code() {
            Some(code) => ApiErrorCode::from_code(code),
            None => ApiErrorCode::Unknown,
        };
        Self { inner, api_error }
    }
}

impl vstd::std_specs::convert::FromSpecImpl<ApiClientError> for AppStoreServerApiClientError {
    open spec fn obeys_from_spec() -> bool {
        true
    }

    closed spec fn from_spec(inner: ApiClientError) -> Self {
        AppStoreServerApiClientError {
            inner,
            api_error: match inner@.1 {
                Some(code) => ApiErrorCode::variant_of_code(code),
                None => ApiErrorCode::Unknown,
            },
        }
    }
}

/// Represents the version of the Get Transaction History endpoint to use.
#[derive(Debug)]
pub enum GetTransactionHistoryVersion {
    /// Deprecated: use `V2` instead.
    V1,
    V2,
}

impl GetTransactionHistoryVersion {
    /// Converts the enum variant to its corresponding string representation.
    pub fn as_str(&self) -> (s: &str)
        ensures
            s@ == match self {
                GetTransactionHistoryVersion::V1 => "v1"@,
                GetTransactionHistoryVersion::V2 => "v2"@,
            },
    {
        match self {
            GetTransactionHistoryVersion::V1 => "v1",
            GetTransactionHistoryVersion::V2 => "v2",
        }
    }
}

/// Enum representing different API errors with associated status codes.
#[derive(Debug, Copy, Clone, PartialEq, Eq, Hash, Structural)]
pub enum ApiErrorCode {
    /// An error that indicates an invalid request.
    /// [Documentation](https://developer.apple.com/documentation/appstoreserverapi/generalbadrequesterror)
    GeneralBadRequest,

    /// An error that indicates an invalid app identifier.
    /// [Documentation](https://developer.apple.com/documentation/appstoreserverapi/invalidappidentifiererror)
    InvalidAppIdentifier,

    /// An error that indicates an invalid request revision.
    /// [Documentation](https://developer.apple.com/documentation/appstoreserverapi/invalidrequestrevisionerror)
    InvalidRequestRevision,

    /// An error that indicates an invalid transaction identifier.
    /// [Documentation](https://developer.apple.com/documentation/appstoreserverapi/invalidtransactioniderror)
    InvalidTransactionId,

    /// An error that indicates an invalid original transaction identifier.
    /// [Documentation](https://developer.apple.com/documentation/appstoreserverapi/invalidoriginaltransactioniderror)
    InvalidOriginalTransactionId,

    /// An error that indicates an invalid extend-by-days value.
    /// [Documentation](https://developer.apple.com/documentation/appstoreserverapi/invalidextendbydayserror)
    InvalidExtendByDays,

    /// An error that indicates an invalid reason code.
    /// [Documentation](https://developer.apple.com/documentation/appstoreserverapi/invalidextendreasoncodeerror)
    InvalidExtendReasonCode,

    /// An error that indicates an invalid request identifier.
    /// [Documentation](https://developer.apple.com/documentation/appstoreserverapi/invalidrequestidentifiererror)
    InvalidRequestIdentifier,

    /// An error that indicates that the start date is earlier than the earliest allowed date.
    /// [Documentation](https://developer.apple.com/documentation/appstoreserverapi/startdatetoofarinpasterror)
    StartDateTooFarInPast,

    /// An error that indicates that the end date precedes the start date, or the two dates are equal.
    /// [Documentation](https://developer.apple.com/documentation/appstoreserverapi/startdateafterenddateerror)
    StartDateAfterEndDate,

    /// An error that indicates the pagination token is invalid.
    /// [Documentation](https://developer.apple.com/documentation/appstoreserverapi/invalidpaginationtokenerror)
    InvalidPaginationToken,

    /// An error that indicates the start date is invalid.
    /// [Documentation](https://developer.apple.com/documentation/appstoreserverapi/invalidstartdateerror)
    InvalidStartDate,

    /// An error that indicates the end date is invalid.
    /// [Documentation](https://developer.apple.com/documentation/appstoreserverapi/invalidenddateerror)
    InvalidEndDate,

    /// An error that indicates the pagination token expired.
    /// [Documentation](https://developer.apple.com/documentation/appstoreserverapi/paginationtokenexpirederror)
    PaginationTokenExpired,

    /// An error that indicates the notification type or subtype is invalid.
    /// [Documentation](https://developer.apple.com/documentation/appstoreserverapi/invalidnotificationtypeerror)
    InvalidNotificationType,

    /// An error that indicates the request is invalid because it has too many constraints applied.
    /// [Documentation](https://developer.apple.com/documentation/appstoreserverapi/multiplefilterssuppliederror)
    MultipleFiltersSupplied,

    /// An error that indicates the test notification token is invalid.
    /// [Documentation](https://developer.apple.com/documentation/appstoreserverapi/invalidtestnotificationtokenerror)
    InvalidTestNotificationToken,

    /// An error that indicates an invalid sort parameter.
    /// [Documentation](https://developer.apple.com/documentation/appstoreserverapi/invalidsorterror)
    InvalidSort,

    /// An error that indicates an invalid product type parameter.
    /// [Documentation](https://developer.apple.com/documentation/appstoreserverapi/invalidproducttypeerror)
    InvalidProductType,

    /// An error that indicates the product ID parameter is invalid.
    /// [Documentation](https://developer.apple.com/documentation/appstoreserverapi/invalidproductiderror)
    InvalidProductId,

    /// An error that indicates an invalid subscription group identifier.
    /// [Documentation](https://developer.apple.com/documentation/appstoreserverapi/invalidsubscriptiongroupidentifiererror)
    InvalidSubscriptionGroupIdentifier,

    /// An error that indicates the query parameter exclude-revoked is invalid.
    /// [Documentation](https://developer.apple.com/documentation/appstoreserverapi/invalidexcluderevokederror)
    InvalidExcludeRevoked,

    /// An error that indicates an invalid in-app ownership type parameter.
    /// [Documentation](https://developer.apple.com/documentation/appstoreserverapi/invalidinappownershiptypeerror)
    InvalidInAppOwnershipType,

    /// An error that indicates a required storefront country code is empty.
    /// [Documentation](https://developer.apple.com/documentation/appstoreserverapi/invalidemptystorefrontcountrycodelisterror)
    InvalidEmptyStorefrontCountryCodeList,

    /// An error that indicates a storefront code is invalid.
    /// [Documentation](https://developer.apple.com/documentation/appstoreserverapi/invalidstorefrontcountrycodeerror)
    InvalidStorefrontCountryCode,

    /// An error that indicates the revoked parameter contains an invalid value.
    /// [Documentation](https://developer.apple.com/documentation/appstoreserverapi/invalidrevokederror)
    InvalidRevoked,

    /// An error that indicates the status parameter is invalid.
    /// [Documentation](https://developer.apple.com/documentation/appstoreserverapi/invalidstatuserror)
    InvalidStatus,

    /// An error that indicates the value of the account tenure field is invalid.
    /// [Documentation](https://developer.apple.com/documentation/appstoreserverapi/invalidaccounttenureerror)
    InvalidAccountTenure,

    /// An error that indicates the value of the app account token is invalid.
    /// [Documentation](https://developer.apple.com/documentation/appstoreserverapi/invalidappaccounttokenerror)
    InvalidAppAccountToken,

    /// An error that indicates the consumption status is invalid.
    /// [Documentation](https://developer.apple.com/documentation/appstoreserverapi/invalidconsumptionstatuserror)
    InvalidConsumptionStatus,

    /// An error that indicates the customer consented status is invalid.
    /// [Documentation](https://developer.apple.com/documentation/appstoreserverapi/invalidcustomerconsentederror)
    InvalidCustomerConsented,

    /// An error that indicates the delivery status is invalid.
    /// [Documentation](https://developer.apple.com/documentation/appstoreserverapi/invaliddeliverystatuserror)
    InvalidDeliveryStatus,

    /// An error that indicates the lifetime dollars purchased field is invalid.
    /// [Documentation](https://developer.apple.com/documentation/appstoreserverapi/invalidlifetimedollarspurchasederror)
    InvalidLifetimeDollarsPurchased,

    /// An error that indicates the lifetime dollars refunded field is invalid.
    /// [Documentation](https://developer.apple.com/documentation/appstoreserverapi/invalidlifetimedollarsrefundederror)
    InvalidLifetimeDollarsRefunded,

    /// An error that indicates the platform parameter is invalid.
    /// [Documentation](https://developer.apple.com/documentation/appstoreserverapi/invalidplatformerror)
    InvalidPlatform,

    /// An error that indicates the play time parameter is invalid.
    /// [Documentation](https://developer.apple.com/documentation/appstoreserverapi/invalidplaytimeerror)
    InvalidPlayTime,

    /// An error that indicates the sample content provided parameter is invalid.
    /// [Documentation](https://developer.apple.com/documentation/appstoreserverapi/invalidsamplecontentprovidederror)
    InvalidSampleContentProvided,

    /// An error that indicates the user status parameter is invalid.
    /// [Documentation](https://developer.apple.com/documentation/appstoreserverapi/invaliduserstatuserror)
    InvalidUserStatus,

    /// An error that indicates the transaction is not consumable.
    /// [Documentation](https://developer.apple.com/documentation/appstoreserverapi/transactionnotconsumableerror)
    InvalidTransactionNotConsumable,

    /// An error that indicates the transaction identifier represents an unsupported in-app purchase type.
    ///
    /// [InvalidTransactionTypeNotSupportedError](https://developer.apple.com/documentation/appstoreserverapi/invalidtransactiontypenotsupportederror)
    InvalidTransactionTypeNotSupported,

    /// An error that indicates the endpoint doesn't support an app transaction ID.
    ///
    /// [AppTransactionIdNotSupportedError](https://developer.apple.com/documentation/appstoreserverapi/apptransactionidnotsupportederror)
    AppTransactionIdNotSupportedError,

    /// An error that indicates the image that's uploading is invalid.
    ///
    /// [InvalidImageError](https://developer.apple.com/documentation/retentionmessaging/invalidimageerror)
    InvalidImage,

    /// An error that indicates the header text is too long.
    ///
    /// [HeaderTooLongError](https://developer.apple.com/documentation/retentionmessaging/headertoolongerror)
    HeaderTooLong,

    /// An error that indicates the body text is too long.
    ///
    /// [BodyTooLongError](https://developer.apple.com/documentation/retentionmessaging/bodytoolongerror)
    BodyTooLong,

    /// An error that indicates the locale is invalid.
    ///
    /// [InvalidLocaleError](https://developer.apple.com/documentation/retentionmessaging/invalidlocaleerror)
    InvalidLocale,

    /// An error that indicates the alternative text for an image is too long.
    ///
    /// [AltTextTooLongError](https://developer.apple.com/documentation/retentionmessaging/alttexttoolongerror)
    AltTextTooLong,

    /// An error that indicates the app account token value is not a valid UUID.
    ///
    /// [InvalidAppAccountTokenUUID](https://developer.apple.com/documentation/appstoreserverapi/invalidappaccounttokenuuiderror)
    InvalidAppAccountTokenUUID,

    /// An error that indicates the transaction is for a product the customer obtains through Family Sharing, which the endpoint doesn't support.
    ///
    /// [FamilyTransactionNotSupported](https://developer.apple.com/documentation/appstoreserverapi/familytransactionnotsupportederror)
    FamilyTransactionNotSupported,

    /// An error that indicates the endpoint expects an original transaction identifier.
    ///
    /// [TransactionIdNotOriginalTransactionId](https://developer.apple.com/documentation/appstoreserverapi/transactionidnotoriginaltransactioniderror)
    TransactionIdNotOriginalTransactionId,

    /// An error the API returns that indicates the performance test request is invalid.
    ///
    /// [InvalidPerformanceTestRequestError](https://developer.apple.com/documentation/retentionmessaging/invalidperformancetestrequesterror)
    InvalidPerformanceTestRequest,

    /// An error that indicates the request ID is invalid.
    ///
    /// [InvalidRequestIdError](https://developer.apple.com/documentation/retentionmessaging/invalidrequestiderror)
    InvalidRequestId,

    /// An error that indicates an error with an existing test.
    ///
    /// [ExistingPerformanceTestRunError](https://developer.apple.com/documentation/retentionmessaging/existingperformancetestrunerror)
    ExistingPerformanceTestRun,

    /// An error that indicates the URL is invalid.
    ///
    /// [BadRequestRealtimeUrlError](https://developer.apple.com/documentation/retentionmessaging/badrequestrealtimeurlerror)
    BadRequestRealtimeUrl,

    /// An error that indicates the image size provided is invalid.
    ///
    /// [BadRequestImageSizeError](https://developer.apple.com/documentation/retentionmessaging/badrequestimagesizeerror)
    BadRequestImageSize,

    /// An error that indicates there are too many bullet points.
    ///
    /// [BadRequestTooManyBulletPointsError](https://developer.apple.com/documentation/retentionmessaging/badrequesttoomanybulletpointserror)
    BadRequestTooManyBulletPoints,

    /// An error that indicates the text for a bullet point is too long.
    ///
    /// [BadRequestBulletPointTextTooLongError](https://developer.apple.com/documentation/retentionmessaging/badrequestbulletpointtexttoolongerror)
    BadRequestBulletPointTextTooLong,

    /// An error that indicates that no image object is included, but the request indicates that the header should be placed above the image.
    ///
    /// [BadRequestAboveImageRequiresAnImageError](https://developer.apple.com/documentation/retentionmessaging/badrequestaboveimagerequiresanimageerror)
    BadRequestAboveImageRequiresAnImage,

    /// An error that indicates the subscription doesn't qualify for a renewal-date extension due to its subscription state.
    /// [Documentation](https://developer.apple.com/documentation/appstoreserverapi/subscriptionextensionineligibleerror)
    SubscriptionExtensionIneligible,

    /// An error that indicates the subscription doesn’t qualify for a renewal-date extension because it has already received the maximum extensions.
    /// [Documentation](https://developer.apple.com/documentation/appstoreserverapi/subscriptionmaxextensionerror)
    SubscriptionMaxExtension,

    /// An error that indicates a subscription isn't directly eligible for a renewal date extension because the user obtained it through Family Sharing.
    /// [Documentation](https://developer.apple.com/documentation/appstoreserverapi/familysharedsubscriptionextensionineligibleerror)
    FamilySharedSubscriptionExtensionIneligible,

    /// An error that indicates when you reach the maximum number of uploaded images.
    ///
    /// [MaximumNumberOfImagesReachedError](https://developer.apple.com/documentation/retentionmessaging/maximumnumberofimagesreachederror)
    MaximumNumberOfImagesReached,

    /// An error that indicates when you reach the maximum number of uploaded messages.
    ///
    /// [MaximumNumberOfMessagesReachedError](https://developer.apple.com/documentation/retentionmessaging/maximumnumberofmessagesreachederror)
    MaximumNumberOfMessagesReached,

    /// An error that indicates the message isn't in the approved state, so you can't configure it as a default message.
    ///
    /// [MessageNotApprovedError](https://developer.apple.com/documentation/retentionmessaging/messagenotapprovederror)
    MessageNotApproved,

    /// An error that indicates the image isn't in the approved state, so you can't configure it as part of a default message.
    ///
    /// [ImageNotApprovedError](https://developer.apple.com/documentation/retentionmessaging/imagenotapprovederror)
    ImageNotApproved,

    /// An error that indicates the image is currently in use as part of a message, so you can't delete it.
    ///
    /// [ImageInUseError](https://developer.apple.com/documentation/retentionmessaging/imageinuseerror)
    ImageInUse,

    /// An error that indicates that passing a performance test is required before you can set a URL for the production environment.
    ///
    /// [ForbiddenNoPassingTestError](https://developer.apple.com/documentation/retentionmessaging/forbiddennopassingtesterror)
    ForbiddenNoPassingTest,

    /// An error that indicates the App Store account wasn’t found.
    /// [Documentation](https://developer.apple.com/documentation/appstoreserverapi/accountnotfounderror)
    AccountNotFound,

    /// An error response that indicates the App Store account wasn’t found, but you can try again.
    /// [Documentation](https://developer.apple.com/documentation/appstoreserverapi/accountnotfoundretryableerror)
    AccountNotFoundRetryable,

    /// An error that indicates the app wasn’t found.
    /// [Documentation](https://developer.apple.com/documentation/appstoreserverapi/appnotfounderror)
    AppNotFound,

    /// An error response that indicates the app wasn’t found, but you can try again.
    /// [Documentation](https://developer.apple.com/documentation/appstoreserverapi/appnotfoundretryableerror)
    AppNotFoundRetryable,

    /// An error that indicates an original transaction identifier wasn't found.
    /// [Documentation](https://developer.apple.com/documentation/appstoreserverapi/originaltransactionidnotfounderror)
    OriginalTransactionIdNotFound,

    /// An error response that indicates the original transaction identifier wasn’t found, but you can try again.
    /// [Documentation](https://developer.apple.com/documentation/appstoreserverapi/originaltransactionidnotfoundretryableerror)
    OriginalTransactionIdNotFoundRetryable,

    /// An error that indicates that the App Store server couldn’t find a notifications URL for your app in this environment.
    /// [Documentation](https://developer.apple.com/documentation/appstoreserverapi/servernotificationurlnotfounderror)
    ServerNotificationUrlNotFound,

    /// An error that indicates that the test notification token is expired or the test notification status isn’t available.
    /// [Documentation](https://developer.apple.com/documentation/appstoreserverapi/testnotificationnotfounderror)
    TestNotificationNotFound,

    /// An error that indicates the server didn't find a subscription-renewal-date extension request for the request identifier and product identifier you provided.
    /// [Documentation](https://developer.apple.com/documentation/appstoreserverapi/statusrequestnotfounderror)
    StatusRequestNotFound,

    /// An error that indicates a transaction identifier wasn't found.
    /// [Documentation](https://developer.apple.com/documentation/appstoreserverapi/transactionidnotfounderror)
    TransactionIdNotFound,

    /// An error that indicates the system can't find the image identifier.
    ///
    /// [ImageNotFoundError](https://developer.apple.com/documentation/retentionmessaging/imagenotfounderror)
    ImageNotFound,

    /// An error that indicates the system can't find the message identifier.
    ///
    /// [MessageNotFoundError](https://developer.apple.com/documentation/retentionmessaging/messagenotfounderror)
    MessageNotFound,

    /// An error the API returns if the service can't find the specified test run.
    ///
    /// [PerformanceTestRunNotFoundError](https://developer.apple.com/documentation/retentionmessaging/performancetestrunnotfounderror)
    PerformanceTestRunNotFound,

    /// An error response that indicates an app transaction doesn't exist for the specified customer.
    ///
    /// [AppTransactionDoesNotExistError](https://developer.apple.com/documentation/appstoreserverapi/apptransactiondoesnotexisterror)
    AppTransactionDoesNotExist,

    /// An error that indicates a default message isn’t configured.
    ///
    /// [DefaultMessageNotFoundError](https://developer.apple.com/documentation/retentionmessaging/defaultmessagenotfounderror)
    DefaultMessageNotFound,

    /// An error that indicates that the URL for your endpoint isn’t configured.
    ///
    /// [RealtimeUrlNotFoundError](https://developer.apple.com/documentation/retentionmessaging/realtimeurlnotfounderror)
    RealtimeUrlNotFound,

    /// An error that indicates the image identifier already exists.
    ///
    /// [ImageAlreadyExistsError](https://developer.apple.com/documentation/retentionmessaging/imagealreadyexistserror)
    ImageAlreadyExists,

    /// An error that indicates the message identifier already exists.
    ///
    /// [MessageAlreadyExistsError](https://developer.apple.com/documentation/retentionmessaging/messagealreadyexistserror)
    MessageAlreadyExists,

    /// An error that indicates that the request exceeded the rate limit.
    /// [Documentation](https://developer.apple.com/documentation/appstoreserverapi/ratelimitexceedederror)
    RateLimitExceeded,

    /// An error that indicates a general internal error.
    ///
    /// [GeneralInternalError](https://developer.apple.com/documentation/appstoreserverapi/generalinternalerror)
    GeneralInternal,

    /// An error response that indicates an unknown error occurred, but you can try again.
    ///
    /// [GeneralInternalRetryableError](https://developer.apple.com/documentation/appstoreserverapi/generalinternalretryableerror)
    GeneralInternalRetryable,

    /// An unknown error
    Unknown,
}

impl ApiErrorCode {
    /// The numeric error code the API uses for this variant.
    pub open spec fn error_code(self) -> i64 {
        match self {
            ApiErrorCode::GeneralBadRequest => 4000000i64,
            ApiErrorCode::InvalidAppIdentifier => 4000002i64,
            ApiErrorCode::InvalidRequestRevision => 4000005i64,
            ApiErrorCode::InvalidTransactionId => 4000006i64,
            ApiErrorCode::InvalidOriginalTransactionId => 4000008i64,
            ApiErrorCode::InvalidExtendByDays => 4000009i64,
            ApiErrorCode::InvalidExtendReasonCode => 4000010i64,
            ApiErrorCode::InvalidRequestIdentifier => 4000011i64,
            ApiErrorCode::StartDateTooFarInPast => 4000012i64,
            ApiErrorCode::StartDateAfterEndDate => 4000013i64,
            ApiErrorCode::InvalidPaginationToken => 4000014i64,
            ApiErrorCode::InvalidStartDate => 4000015i64,
            ApiErrorCode::InvalidEndDate => 4000016i64,
            ApiErrorCode::PaginationTokenExpired => 4000017i64,
            ApiErrorCode::InvalidNotificationType => 4000018i64,
            ApiErrorCode::MultipleFiltersSupplied => 4000019i64,
            ApiErrorCode::InvalidTestNotificationToken => 4000020i64,
            ApiErrorCode::InvalidSort => 4000021i64,
            ApiErrorCode::InvalidProductType => 4000022i64,
            ApiErrorCode::InvalidProductId => 4000023i64,
            ApiErrorCode::InvalidSubscriptionGroupIdentifier => 4000024i64,
            ApiErrorCode::InvalidExcludeRevoked => 4000025i64,
            ApiErrorCode::InvalidInAppOwnershipType => 4000026i64,
            ApiErrorCode::InvalidEmptyStorefrontCountryCodeList => 4000027i64,
            ApiErrorCode::InvalidStorefrontCountryCode => 4000028i64,
            ApiErrorCode::InvalidRevoked => 4000030i64,
            ApiErrorCode::InvalidStatus => 4000031i64,
            ApiErrorCode::InvalidAccountTenure => 4000032i64,
            ApiErrorCode::InvalidAppAccountToken => 4000033i64,
            ApiErrorCode::InvalidConsumptionStatus => 4000034i64,
            ApiErrorCode::InvalidCustomerConsented => 4000035i64,
            ApiErrorCode::InvalidDeliveryStatus => 4000036i64,
            ApiErrorCode::InvalidLifetimeDollarsPurchased => 4000037i64,
            ApiErrorCode::InvalidLifetimeDollarsRefunded => 4000038i64,
            ApiErrorCode::InvalidPlatform => 4000039i64,
            ApiErrorCode::InvalidPlayTime => 4000040i64,
            ApiErrorCode::InvalidSampleContentProvided => 4000041i64,
            ApiErrorCode::InvalidUserStatus => 4000042i64,
            ApiErrorCode::InvalidTransactionNotConsumable => 4000043i64,
            ApiErrorCode::InvalidTransactionTypeNotSupported => 4000047i64,
            ApiErrorCode::AppTransactionIdNotSupportedError => 4000048i64,
            ApiErrorCode::InvalidImage => 4000161i64,
            ApiErrorCode::HeaderTooLong => 4000162i64,
            ApiErrorCode::BodyTooLong => 4000163i64,
            ApiErrorCode::InvalidLocale => 4000164i64,
            ApiErrorCode::AltTextTooLong => 4000175i64,
            ApiErrorCode::InvalidAppAccountTokenUUID => 4000183i64,
            ApiErrorCode::FamilyTransactionNotSupported => 4000185i64,
            ApiErrorCode::TransactionIdNotOriginalTransactionId => 4000187i64,
            ApiErrorCode::InvalidPerformanceTestRequest => 4000211i64,
            ApiErrorCode::InvalidRequestId => 4000212i64,
            ApiErrorCode::ExistingPerformanceTestRun => 4000213i64,
            ApiErrorCode::BadRequestRealtimeUrl => 4000215i64,
            ApiErrorCode::BadRequestImageSize => 4000216i64,
            ApiErrorCode::BadRequestTooManyBulletPoints => 4000218i64,
            ApiErrorCode::BadRequestBulletPointTextTooLong => 4000219i64,
            ApiErrorCode::BadRequestAboveImageRequiresAnImage => 4000224i64,
            ApiErrorCode::SubscriptionExtensionIneligible => 4030004i64,
            ApiErrorCode::SubscriptionMaxExtension => 4030005i64,
            ApiErrorCode::FamilySharedSubscriptionExtensionIneligible => 4030007i64,
            ApiErrorCode::MaximumNumberOfImagesReached => 4030014i64,
            ApiErrorCode::MaximumNumberOfMessagesReached => 4030016i64,
            ApiErrorCode::MessageNotApproved => 4030017i64,
            ApiErrorCode::ImageNotApproved => 4030018i64,
            ApiErrorCode::ImageInUse => 4030019i64,
            ApiErrorCode::ForbiddenNoPassingTest => 4030026i64,
            ApiErrorCode::AccountNotFound => 4040001i64,
            ApiErrorCode::AccountNotFoundRetryable => 4040002i64,
            ApiErrorCode::AppNotFound => 4040003i64,
            ApiErrorCode::AppNotFoundRetryable => 4040004i64,
            ApiErrorCode::OriginalTransactionIdNotFound => 4040005i64,
            ApiErrorCode::OriginalTransactionIdNotFoundRetryable => 4040006i64,
            ApiErrorCode::ServerNotificationUrlNotFound => 4040007i64,
            ApiErrorCode::TestNotificationNotFound => 4040008i64,
            ApiErrorCode::StatusRequestNotFound => 4040009i64,
            ApiErrorCode::TransactionIdNotFound => 4040010i64,
            ApiErrorCode::ImageNotFound => 4040014i64,
            ApiErrorCode::MessageNotFound => 4040015i64,
            ApiErrorCode::PerformanceTestRunNotFound => 4040018i64,
            ApiErrorCode::AppTransactionDoesNotExist => 4040019i64,
            ApiErrorCode::DefaultMessageNotFound => 4040020i64,
            ApiErrorCode::RealtimeUrlNotFound => 4040021i64,
            ApiErrorCode::ImageAlreadyExists => 4090000i64,
            ApiErrorCode::MessageAlreadyExists => 4090001i64,
            ApiErrorCode::RateLimitExceeded => 4290000i64,
            ApiErrorCode::GeneralInternal => 5000000i64,
            ApiErrorCode::GeneralInternalRetryable => 5000001i64,
            ApiErrorCode::Unknown => -1i64,
        }
    }

    /// The numeric error code the API uses for this variant.
    pub fn code(&self) -> (c: i64)
        ensures
            c == self.error_code(),
    {
        match self {
            ApiErrorCode::GeneralBadRequest => 4000000,
            ApiErrorCode::InvalidAppIdentifier => 4000002,
            ApiErrorCode::InvalidRequestRevision => 4000005,
            ApiErrorCode::InvalidTransactionId => 4000006,
            ApiErrorCode::InvalidOriginalTransactionId => 4000008,
            ApiErrorCode::InvalidExtendByDays => 4000009,
            ApiErrorCode::InvalidExtendReasonCode => 4000010,
            ApiErrorCode::InvalidRequestIdentifier => 4000011,
            ApiErrorCode::StartDateTooFarInPast => 4000012,
            ApiErrorCode::StartDateAfterEndDate => 4000013,
            ApiErrorCode::InvalidPaginationToken => 4000014,
            ApiErrorCode::InvalidStartDate => 4000015,
            ApiErrorCode::InvalidEndDate => 4000016,
            ApiErrorCode::PaginationTokenExpired => 4000017,
            ApiErrorCode::InvalidNotificationType => 4000018,
            ApiErrorCode::MultipleFiltersSupplied => 4000019,
            ApiErrorCode::InvalidTestNotificationToken => 4000020,
            ApiErrorCode::InvalidSort => 4000021,
            ApiErrorCode::InvalidProductType => 4000022,
            ApiErrorCode::InvalidProductId => 4000023,
            ApiErrorCode::InvalidSubscriptionGroupIdentifier => 4000024,
            ApiErrorCode::InvalidExcludeRevoked => 4000025,
            ApiErrorCode::InvalidInAppOwnershipType => 4000026,
            ApiErrorCode::InvalidEmptyStorefrontCountryCodeList => 4000027,
            ApiErrorCode::InvalidStorefrontCountryCode => 4000028,
            ApiErrorCode::InvalidRevoked => 4000030,
            ApiErrorCode::InvalidStatus => 4000031,
            ApiErrorCode::InvalidAccountTenure => 4000032,
            ApiErrorCode::InvalidAppAccountToken => 4000033,
            ApiErrorCode::InvalidConsumptionStatus => 4000034,
            ApiErrorCode::InvalidCustomerConsented => 4000035,
            ApiErrorCode::InvalidDeliveryStatus => 4000036,
            ApiErrorCode::InvalidLifetimeDollarsPurchased => 4000037,
            ApiErrorCode::InvalidLifetimeDollarsRefunded => 4000038,
            ApiErrorCode::InvalidPlatform => 4000039,
            ApiErrorCode::InvalidPlayTime => 4000040,
            ApiErrorCode::InvalidSampleContentProvided => 4000041,
            ApiErrorCode::InvalidUserStatus => 4000042,
            ApiErrorCode::InvalidTransactionNotConsumable => 4000043,
            ApiErrorCode::InvalidTransactionTypeNotSupported => 4000047,
            ApiErrorCode::AppTransactionIdNotSupportedError => 4000048,
            ApiErrorCode::InvalidImage => 4000161,
            ApiErrorCode::HeaderTooLong => 4000162,
            ApiErrorCode::BodyTooLong => 4000163,
            ApiErrorCode::InvalidLocale => 4000164,
            ApiErrorCode::AltTextTooLong => 4000175,
            ApiErrorCode::InvalidAppAccountTokenUUID => 4000183,
            ApiErrorCode::FamilyTransactionNotSupported => 4000185,
            ApiErrorCode::TransactionIdNotOriginalTransactionId => 4000187,
            ApiErrorCode::InvalidPerformanceTestRequest => 4000211,
            ApiErrorCode::InvalidRequestId => 4000212,
            ApiErrorCode::ExistingPerformanceTestRun => 4000213,
            ApiErrorCode::BadRequestRealtimeUrl => 4000215,
            ApiErrorCode::BadRequestImageSize => 4000216,
            ApiErrorCode::BadRequestTooManyBulletPoints => 4000218,
            ApiErrorCode::BadRequestBulletPointTextTooLong => 4000219,
            ApiErrorCode::BadRequestAboveImageRequiresAnImage => 4000224,
            ApiErrorCode::SubscriptionExtensionIneligible => 4030004,
            ApiErrorCode::SubscriptionMaxExtension => 4030005,
            ApiErrorCode::FamilySharedSubscriptionExtensionIneligible => 4030007,
            ApiErrorCode::MaximumNumberOfImagesReached => 4030014,
            ApiErrorCode::MaximumNumberOfMessagesReached => 4030016,
            ApiErrorCode::MessageNotApproved => 4030017,
            ApiErrorCode::ImageNotApproved => 4030018,
            ApiErrorCode::ImageInUse => 4030019,
            ApiErrorCode::ForbiddenNoPassingTest => 4030026,
            ApiErrorCode::AccountNotFound => 4040001,
            ApiErrorCode::AccountNotFoundRetryable => 4040002,
            ApiErrorCode::AppNotFound => 4040003,
            ApiErrorCode::AppNotFoundRetryable => 4040004,
            ApiErrorCode::OriginalTransactionIdNotFound => 4040005,
            ApiErrorCode::OriginalTransactionIdNotFoundRetryable => 4040006,
            ApiErrorCode::ServerNotificationUrlNotFound => 4040007,
            ApiErrorCode::TestNotificationNotFound => 4040008,
            ApiErrorCode::StatusRequestNotFound => 4040009,
            ApiErrorCode::TransactionIdNotFound => 4040010,
            ApiErrorCode::ImageNotFound => 4040014,
            ApiErrorCode::MessageNotFound => 4040015,
            ApiErrorCode::PerformanceTestRunNotFound => 4040018,
            ApiErrorCode::AppTransactionDoesNotExist => 4040019,
            ApiErrorCode::DefaultMessageNotFound => 4040020,
            ApiErrorCode::RealtimeUrlNotFound => 4040021,
            ApiErrorCode::ImageAlreadyExists => 4090000,
            ApiErrorCode::MessageAlreadyExists => 4090001,
            ApiErrorCode::RateLimitExceeded => 4290000,
            ApiErrorCode::GeneralInternal => 5000000,
            ApiErrorCode::GeneralInternalRetryable => 5000001,
            ApiErrorCode::Unknown => -1,
        }
    }

    /// The variant's name, as `Debug` writes it.
    pub open spec fn variant_name(self) -> Seq<char> {
        match self {
            ApiErrorCode::GeneralBadRequest => "GeneralBadRequest"@,
            ApiErrorCode::InvalidAppIdentifier => "InvalidAppIdentifier"@,
            ApiErrorCode::InvalidRequestRevision => "InvalidRequestRevision"@,
            ApiErrorCode::InvalidTransactionId => "InvalidTransactionId"@,
            ApiErrorCode::InvalidOriginalTransactionId => "InvalidOriginalTransactionId"@,
            ApiErrorCode::InvalidExtendByDays => "InvalidExtendByDays"@,
            ApiErrorCode::InvalidExtendReasonCode => "InvalidExtendReasonCode"@,
            ApiErrorCode::InvalidRequestIdentifier => "InvalidRequestIdentifier"@,
            ApiErrorCode::StartDateTooFarInPast => "StartDateTooFarInPast"@,
            ApiErrorCode::StartDateAfterEndDate => "StartDateAfterEndDate"@,
            ApiErrorCode::InvalidPaginationToken => "InvalidPaginationToken"@,
            ApiErrorCode::InvalidStartDate => "InvalidStartDate"@,
            ApiErrorCode::InvalidEndDate => "InvalidEndDate"@,
            ApiErrorCode::PaginationTokenExpired => "PaginationTokenExpired"@,
            ApiErrorCode::InvalidNotificationType => "InvalidNotificationType"@,
            ApiErrorCode::MultipleFiltersSupplied => "MultipleFiltersSupplied"@,
            ApiErrorCode::InvalidTestNotificationToken => "InvalidTestNotificationToken"@,
            ApiErrorCode::InvalidSort => "InvalidSort"@,
            ApiErrorCode::InvalidProductType => "InvalidProductType"@,
            ApiErrorCode::InvalidProductId => "InvalidProductId"@,
            ApiErrorCode::InvalidSubscriptionGroupIdentifier => "InvalidSubscriptionGroupIdentifier"@,
            ApiErrorCode::InvalidExcludeRevoked => "InvalidExcludeRevoked"@,
            ApiErrorCode::InvalidInAppOwnershipType => "InvalidInAppOwnershipType"@,
            ApiErrorCode::InvalidEmptyStorefrontCountryCodeList => "InvalidEmptyStorefrontCountryCodeList"@,
            ApiErrorCode::InvalidStorefrontCountryCode => "InvalidStorefrontCountryCode"@,
            ApiErrorCode::InvalidRevoked => "InvalidRevoked"@,
            ApiErrorCode::InvalidStatus => "InvalidStatus"@,
            ApiErrorCode::InvalidAccountTenure => "InvalidAccountTenure"@,
            ApiErrorCode::InvalidAppAccountToken => "InvalidAppAccountToken"@,
            ApiErrorCode::InvalidConsumptionStatus => "InvalidConsumptionStatus"@,
            ApiErrorCode::InvalidCustomerConsented => "InvalidCustomerConsented"@,
            ApiErrorCode::InvalidDeliveryStatus => "InvalidDeliveryStatus"@,
            ApiErrorCode::InvalidLifetimeDollarsPurchased => "InvalidLifetimeDollarsPurchased"@,
            ApiErrorCode::InvalidLifetimeDollarsRefunded => "InvalidLifetimeDollarsRefunded"@,
            ApiErrorCode::InvalidPlatform => "InvalidPlatform"@,
            ApiErrorCode::InvalidPlayTime => "InvalidPlayTime"@,
            ApiErrorCode::InvalidSampleContentProvided => "InvalidSampleContentProvided"@,
            ApiErrorCode::InvalidUserStatus => "InvalidUserStatus"@,
            ApiErrorCode::InvalidTransactionNotConsumable => "InvalidTransactionNotConsumable"@,
            ApiErrorCode::InvalidTransactionTypeNotSupported => "InvalidTransactionTypeNotSupported"@,
            ApiErrorCode::AppTransactionIdNotSupportedError => "AppTransactionIdNotSupportedError"@,
            ApiErrorCode::InvalidImage => "InvalidImage"@,
            ApiErrorCode::HeaderTooLong => "HeaderTooLong"@,
            ApiErrorCode::BodyTooLong => "BodyTooLong"@,
            ApiErrorCode::InvalidLocale => "InvalidLocale"@,
            ApiErrorCode::AltTextTooLong => "AltTextTooLong"@,
            ApiErrorCode::InvalidAppAccountTokenUUID => "InvalidAppAccountTokenUUID"@,
            ApiErrorCode::FamilyTransactionNotSupported => "FamilyTransactionNotSupported"@,
            ApiErrorCode::TransactionIdNotOriginalTransactionId => "TransactionIdNotOriginalTransactionId"@,
            ApiErrorCode::InvalidPerformanceTestRequest => "InvalidPerformanceTestRequest"@,
            ApiErrorCode::InvalidRequestId => "InvalidRequestId"@,
            ApiErrorCode::ExistingPerformanceTestRun => "ExistingPerformanceTestRun"@,
            ApiErrorCode::BadRequestRealtimeUrl => "BadRequestRealtimeUrl"@,
            ApiErrorCode::BadRequestImageSize => "BadRequestImageSize"@,
            ApiErrorCode::BadRequestTooManyBulletPoints => "BadRequestTooManyBulletPoints"@,
            ApiErrorCode::BadRequestBulletPointTextTooLong => "BadRequestBulletPointTextTooLong"@,
            ApiErrorCode::BadRequestAboveImageRequiresAnImage => "BadRequestAboveImageRequiresAnImage"@,
            ApiErrorCode::SubscriptionExtensionIneligible => "SubscriptionExtensionIneligible"@,
            ApiErrorCode::SubscriptionMaxExtension => "SubscriptionMaxExtension"@,
            ApiErrorCode::FamilySharedSubscriptionExtensionIneligible => "FamilySharedSubscriptionExtensionIneligible"@,
            ApiErrorCode::MaximumNumberOfImagesReached => "MaximumNumberOfImagesReached"@,
            ApiErrorCode::MaximumNumberOfMessagesReached => "MaximumNumberOfMessagesReached"@,
            ApiErrorCode::MessageNotApproved => "MessageNotApproved"@,
            ApiErrorCode::ImageNotApproved => "ImageNotApproved"@,
            ApiErrorCode::ImageInUse => "ImageInUse"@,
            ApiErrorCode::ForbiddenNoPassingTest => "ForbiddenNoPassingTest"@,
            ApiErrorCode::AccountNotFound => "AccountNotFound"@,
            ApiErrorCode::AccountNotFoundRetryable => "AccountNotFoundRetryable"@,
            ApiErrorCode::AppNotFound => "AppNotFound"@,
            ApiErrorCode::AppNotFoundRetryable => "AppNotFoundRetryable"@,
            ApiErrorCode::OriginalTransactionIdNotFound => "OriginalTransactionIdNotFound"@,
            ApiErrorCode::OriginalTransactionIdNotFoundRetryable => "OriginalTransactionIdNotFoundRetryable"@,
            ApiErrorCode::ServerNotificationUrlNotFound => "ServerNotificationUrlNotFound"@,
            ApiErrorCode::TestNotificationNotFound => "TestNotificationNotFound"@,
            ApiErrorCode::StatusRequestNotFound => "StatusRequestNotFound"@,
            ApiErrorCode::TransactionIdNotFound => "TransactionIdNotFound"@,
            ApiErrorCode::ImageNotFound => "ImageNotFound"@,
            ApiErrorCode::MessageNotFound => "MessageNotFound"@,
            ApiErrorCode::PerformanceTestRunNotFound => "PerformanceTestRunNotFound"@,
            ApiErrorCode::AppTransactionDoesNotExist => "AppTransactionDoesNotExist"@,
            ApiErrorCode::DefaultMessageNotFound => "DefaultMessageNotFound"@,
            ApiErrorCode::RealtimeUrlNotFound => "RealtimeUrlNotFound"@,
            ApiErrorCode::ImageAlreadyExists => "ImageAlreadyExists"@,
            ApiErrorCode::MessageAlreadyExists => "MessageAlreadyExists"@,
            ApiErrorCode::RateLimitExceeded => "RateLimitExceeded"@,
            ApiErrorCode::GeneralInternal => "GeneralInternal"@,
            ApiErrorCode::GeneralInternalRetryable => "GeneralInternalRetryable"@,
            ApiErrorCode::Unknown => "Unknown"@,
        }
    }

    /// The variant's name, as `Debug` writes it.
    pub fn name(&self) -> (s: &'static str)
        ensures
            s@ == self.variant_name(),
    {
        match self {
            ApiErrorCode::GeneralBadRequest => "GeneralBadRequest",
            ApiErrorCode::InvalidAppIdentifier => "InvalidAppIdentifier",
            ApiErrorCode::InvalidRequestRevision => "InvalidRequestRevision",
            ApiErrorCode::InvalidTransactionId => "InvalidTransactionId",
            ApiErrorCode::InvalidOriginalTransactionId => "InvalidOriginalTransactionId",
            ApiErrorCode::InvalidExtendByDays => "InvalidExtendByDays",
            ApiErrorCode::InvalidExtendReasonCode => "InvalidExtendReasonCode",
            ApiErrorCode::InvalidRequestIdentifier => "InvalidRequestIdentifier",
            ApiErrorCode::StartDateTooFarInPast => "StartDateTooFarInPast",
            ApiErrorCode::StartDateAfterEndDate => "StartDateAfterEndDate",
            ApiErrorCode::InvalidPaginationToken => "InvalidPaginationToken",
            ApiErrorCode::InvalidStartDate => "InvalidStartDate",
            ApiErrorCode::InvalidEndDate => "InvalidEndDate",
            ApiErrorCode::PaginationTokenExpired => "PaginationTokenExpired",
            ApiErrorCode::InvalidNotificationType => "InvalidNotificationType",
            ApiErrorCode::MultipleFiltersSupplied => "MultipleFiltersSupplied",
            ApiErrorCode::InvalidTestNotificationToken => "InvalidTestNotificationToken",
            ApiErrorCode::InvalidSort => "InvalidSort",
            ApiErrorCode::InvalidProductType => "InvalidProductType",
            ApiErrorCode::InvalidProductId => "InvalidProductId",
            ApiErrorCode::InvalidSubscriptionGroupIdentifier => "InvalidSubscriptionGroupIdentifier",
            ApiErrorCode::InvalidExcludeRevoked => "InvalidExcludeRevoked",
            ApiErrorCode::InvalidInAppOwnershipType => "InvalidInAppOwnershipType",
            ApiErrorCode::InvalidEmptyStorefrontCountryCodeList => "InvalidEmptyStorefrontCountryCodeList",
            ApiErrorCode::InvalidStorefrontCountryCode => "InvalidStorefrontCountryCode",
            ApiErrorCode::InvalidRevoked => "InvalidRevoked",
            ApiErrorCode::InvalidStatus => "InvalidStatus",
            ApiErrorCode::InvalidAccountTenure => "InvalidAccountTenure",
            ApiErrorCode::InvalidAppAccountToken => "InvalidAppAccountToken",
            ApiErrorCode::InvalidConsumptionStatus => "InvalidConsumptionStatus",
            ApiErrorCode::InvalidCustomerConsented => "InvalidCustomerConsented",
            ApiErrorCode::InvalidDeliveryStatus => "InvalidDeliveryStatus",
            ApiErrorCode::InvalidLifetimeDollarsPurchased => "InvalidLifetimeDollarsPurchased",
            ApiErrorCode::InvalidLifetimeDollarsRefunded => "InvalidLifetimeDollarsRefunded",
            ApiErrorCode::InvalidPlatform => "InvalidPlatform",
            ApiErrorCode::InvalidPlayTime => "InvalidPlayTime",
            ApiErrorCode::InvalidSampleContentProvided => "InvalidSampleContentProvided",
            ApiErrorCode::InvalidUserStatus => "InvalidUserStatus",
            ApiErrorCode::InvalidTransactionNotConsumable => "InvalidTransactionNotConsumable",
            ApiErrorCode::InvalidTransactionTypeNotSupported => "InvalidTransactionTypeNotSupported",
            ApiErrorCode::AppTransactionIdNotSupportedError => "AppTransactionIdNotSupportedError",
            ApiErrorCode::InvalidImage => "InvalidImage",
            ApiErrorCode::HeaderTooLong => "HeaderTooLong",
            ApiErrorCode::BodyTooLong => "BodyTooLong",
            ApiErrorCode::InvalidLocale => "InvalidLocale",
            ApiErrorCode::AltTextTooLong => "AltTextTooLong",
            ApiErrorCode::InvalidAppAccountTokenUUID => "InvalidAppAccountTokenUUID",
            ApiErrorCode::FamilyTransactionNotSupported => "FamilyTransactionNotSupported",
            ApiErrorCode::TransactionIdNotOriginalTransactionId => "TransactionIdNotOriginalTransactionId",
            ApiErrorCode::InvalidPerformanceTestRequest => "InvalidPerformanceTestRequest",
            ApiErrorCode::InvalidRequestId => "InvalidRequestId",
            ApiErrorCode::ExistingPerformanceTestRun => "ExistingPerformanceTestRun",
            ApiErrorCode::BadRequestRealtimeUrl => "BadRequestRealtimeUrl",
            ApiErrorCode::BadRequestImageSize => "BadRequestImageSize",
            ApiErrorCode::BadRequestTooManyBulletPoints => "BadRequestTooManyBulletPoints",
            ApiErrorCode::BadRequestBulletPointTextTooLong => "BadRequestBulletPointTextTooLong",
            ApiErrorCode::BadRequestAboveImageRequiresAnImage => "BadRequestAboveImageRequiresAnImage",
            ApiErrorCode::SubscriptionExtensionIneligible => "SubscriptionExtensionIneligible",
            ApiErrorCode::SubscriptionMaxExtension => "SubscriptionMaxExtension",
            ApiErrorCode::FamilySharedSubscriptionExtensionIneligible => "FamilySharedSubscriptionExtensionIneligible",
            ApiErrorCode::MaximumNumberOfImagesReached => "MaximumNumberOfImagesReached",
            ApiErrorCode::MaximumNumberOfMessagesReached => "MaximumNumberOfMessagesReached",
            ApiErrorCode::MessageNotApproved => "MessageNotApproved",
            ApiErrorCode::ImageNotApproved => "ImageNotApproved",
            ApiErrorCode::ImageInUse => "ImageInUse",
            ApiErrorCode::ForbiddenNoPassingTest => "ForbiddenNoPassingTest",
            ApiErrorCode::AccountNotFound => "AccountNotFound",
            ApiErrorCode::AccountNotFoundRetryable => "AccountNotFoundRetryable",
            ApiErrorCode::AppNotFound => "AppNotFound",
            ApiErrorCode::AppNotFoundRetryable => "AppNotFoundRetryable",
            ApiErrorCode::OriginalTransactionIdNotFound => "OriginalTransactionIdNotFound",
            ApiErrorCode::OriginalTransactionIdNotFoundRetryable => "OriginalTransactionIdNotFoundRetryable",
            ApiErrorCode::ServerNotificationUrlNotFound => "ServerNotificationUrlNotFound",
            ApiErrorCode::TestNotificationNotFound => "TestNotificationNotFound",
            ApiErrorCode::StatusRequestNotFound => "StatusRequestNotFound",
            ApiErrorCode::TransactionIdNotFound => "TransactionIdNotFound",
            ApiErrorCode::ImageNotFound => "ImageNotFound",
            ApiErrorCode::MessageNotFound => "MessageNotFound",
            ApiErrorCode::PerformanceTestRunNotFound => "PerformanceTestRunNotFound",
            ApiErrorCode::AppTransactionDoesNotExist => "AppTransactionDoesNotExist",
            ApiErrorCode::DefaultMessageNotFound => "DefaultMessageNotFound",
            ApiErrorCode::RealtimeUrlNotFound => "RealtimeUrlNotFound",
            ApiErrorCode::ImageAlreadyExists => "ImageAlreadyExists",
            ApiErrorCode::MessageAlreadyExists => "MessageAlreadyExists",
            ApiErrorCode::RateLimitExceeded => "RateLimitExceeded",
            ApiErrorCode::GeneralInternal => "GeneralInternal",
            ApiErrorCode::GeneralInternalRetryable => "GeneralInternalRetryable",
            ApiErrorCode::Unknown => "Unknown",
        }
    }

    /// The variant a raw error code stands for, `Unknown` for codes the catalogue does not list.
    pub open spec fn variant_of_code(code: i64) -> Self {
        match code {
            4000000 => ApiErrorCode::GeneralBadRequest,
            4000002 => ApiErrorCode::InvalidAppIdentifier,
            4000005 => ApiErrorCode::InvalidRequestRevision,
            4000006 => ApiErrorCode::InvalidTransactionId,
            4000008 => ApiErrorCode::InvalidOriginalTransactionId,
            4000009 => ApiErrorCode::InvalidExtendByDays,
            4000010 => ApiErrorCode::InvalidExtendReasonCode,
            4000011 => ApiErrorCode::InvalidRequestIdentifier,
            4000012 => ApiErrorCode::StartDateTooFarInPast,
            4000013 => ApiErrorCode::StartDateAfterEndDate,
            4000014 => ApiErrorCode::InvalidPaginationToken,
            4000015 => ApiErrorCode::InvalidStartDate,
            4000016 => ApiErrorCode::InvalidEndDate,
            4000017 => ApiErrorCode::PaginationTokenExpired,
            4000018 => ApiErrorCode::InvalidNotificationType,
            4000019 => ApiErrorCode::MultipleFiltersSupplied,
            4000020 => ApiErrorCode::InvalidTestNotificationToken,
            4000021 => ApiErrorCode::InvalidSort,
            4000022 => ApiErrorCode::InvalidProductType,
            4000023 => ApiErrorCode::InvalidProductId,
            4000024 => ApiErrorCode::InvalidSubscriptionGroupIdentifier,
            4000025 => ApiErrorCode::InvalidExcludeRevoked,
            4000026 => ApiErrorCode::InvalidInAppOwnershipType,
            4000027 => ApiErrorCode::InvalidEmptyStorefrontCountryCodeList,
            4000028 => ApiErrorCode::InvalidStorefrontCountryCode,
            4000030 => ApiErrorCode::InvalidRevoked,
            4000031 => ApiErrorCode::InvalidStatus,
            4000032 => ApiErrorCode::InvalidAccountTenure,
            4000033 => ApiErrorCode::InvalidAppAccountToken,
            4000034 => ApiErrorCode::InvalidConsumptionStatus,
            4000035 => ApiErrorCode::InvalidCustomerConsented,
            4000036 => ApiErrorCode::InvalidDeliveryStatus,
            4000037 => ApiErrorCode::InvalidLifetimeDollarsPurchased,
            4000038 => ApiErrorCode::InvalidLifetimeDollarsRefunded,
            4000039 => ApiErrorCode::InvalidPlatform,
            4000040 => ApiErrorCode::InvalidPlayTime,
            4000041 => ApiErrorCode::InvalidSampleContentProvided,
            4000042 => ApiErrorCode::InvalidUserStatus,
            4000043 => ApiErrorCode::InvalidTransactionNotConsumable,
            4000047 => ApiErrorCode::InvalidTransactionTypeNotSupported,
            4000048 => ApiErrorCode::AppTransactionIdNotSupportedError,
            4000161 => ApiErrorCode::InvalidImage,
            4000162 => ApiErrorCode::HeaderTooLong,
            4000163 => ApiErrorCode::BodyTooLong,
            4000164 => ApiErrorCode::InvalidLocale,
            4000175 => ApiErrorCode::AltTextTooLong,
            4000183 => ApiErrorCode::InvalidAppAccountTokenUUID,
            4000185 => ApiErrorCode::FamilyTransactionNotSupported,
            4000187 => ApiErrorCode::TransactionIdNotOriginalTransactionId,
            4000211 => ApiErrorCode::InvalidPerformanceTestRequest,
            4000212 => ApiErrorCode::InvalidRequestId,
            4000213 => ApiErrorCode::ExistingPerformanceTestRun,
            4000215 => ApiErrorCode::BadRequestRealtimeUrl,
            4000216 => ApiErrorCode::BadRequestImageSize,
            4000218 => ApiErrorCode::BadRequestTooManyBulletPoints,
            4000219 => ApiErrorCode::BadRequestBulletPointTextTooLong,
            4000224 => ApiErrorCode::BadRequestAboveImageRequiresAnImage,
            4030004 => ApiErrorCode::SubscriptionExtensionIneligible,
            4030005 => ApiErrorCode::SubscriptionMaxExtension,
            4030007 => ApiErrorCode::FamilySharedSubscriptionExtensionIneligible,
            4030014 => ApiErrorCode::MaximumNumberOfImagesReached,
            4030016 => ApiErrorCode::MaximumNumberOfMessagesReached,
            4030017 => ApiErrorCode::MessageNotApproved,
            4030018 => ApiErrorCode::ImageNotApproved,
            4030019 => ApiErrorCode::ImageInUse,
            4030026 => ApiErrorCode::ForbiddenNoPassingTest,
            4040001 => ApiErrorCode::AccountNotFound,
            4040002 => ApiErrorCode::AccountNotFoundRetryable,
            4040003 => ApiErrorCode::AppNotFound,
            4040004 => ApiErrorCode::AppNotFoundRetryable,
            4040005 => ApiErrorCode::OriginalTransactionIdNotFound,
            4040006 => ApiErrorCode::OriginalTransactionIdNotFoundRetryable,
            4040007 => ApiErrorCode::ServerNotificationUrlNotFound,
            4040008 => ApiErrorCode::TestNotificationNotFound,
            4040009 => ApiErrorCode::StatusRequestNotFound,
            4040010 => ApiErrorCode::TransactionIdNotFound,
            4040014 => ApiErrorCode::ImageNotFound,
            4040015 => ApiErrorCode::MessageNotFound,
            4040018 => ApiErrorCode::PerformanceTestRunNotFound,
            4040019 => ApiErrorCode::AppTransactionDoesNotExist,
            4040020 => ApiErrorCode::DefaultMessageNotFound,
            4040021 => ApiErrorCode::RealtimeUrlNotFound,
            4090000 => ApiErrorCode::ImageAlreadyExists,
            4090001 => ApiErrorCode::MessageAlreadyExists,
            4290000 => ApiErrorCode::RateLimitExceeded,
            5000000 => ApiErrorCode::GeneralInternal,
            5000001 => ApiErrorCode::GeneralInternalRetryable,
            _ => ApiErrorCode::Unknown,
        }
    }

    /// Maps a raw error code returned by the API into a known
    /// variant, falling back to `Unknown`.
    pub fn from_code(code: i64) -> (e: Self)
        ensures
            e == Self::variant_of_code(code),
    {
        match code {
            4000000 => Self::GeneralBadRequest,
            4000002 => Self::InvalidAppIdentifier,
            4000005 => Self::InvalidRequestRevision,
            4000006 => Self::InvalidTransactionId,
            4000008 => Self::InvalidOriginalTransactionId,
            4000009 => Self::InvalidExtendByDays,
            4000010 => Self::InvalidExtendReasonCode,
            4000011 => Self::InvalidRequestIdentifier,
            4000012 => Self::StartDateTooFarInPast,
            4000013 => Self::StartDateAfterEndDate,
            4000014 => Self::InvalidPaginationToken,
            4000015 => Self::InvalidStartDate,
            4000016 => Self::InvalidEndDate,
            4000017 => Self::PaginationTokenExpired,
            4000018 => Self::InvalidNotificationType,
            4000019 => Self::MultipleFiltersSupplied,
            4000020 => Self::InvalidTestNotificationToken,
            4000021 => Self::InvalidSort,
            4000022 => Self::InvalidProductType,
            4000023 => Self::InvalidProductId,
            4000024 => Self::InvalidSubscriptionGroupIdentifier,
            4000025 => Self::InvalidExcludeRevoked,
            4000026 => Self::InvalidInAppOwnershipType,
            4000027 => Self::InvalidEmptyStorefrontCountryCodeList,
            4000028 => Self::InvalidStorefrontCountryCode,
            4000030 => Self::InvalidRevoked,
            4000031 => Self::InvalidStatus,
            4000032 => Self::InvalidAccountTenure,
            4000033 => Self::InvalidAppAccountToken,
            4000034 => Self::InvalidConsumptionStatus,
            4000035 => Self::InvalidCustomerConsented,
            4000036 => Self::InvalidDeliveryStatus,
            4000037 => Self::InvalidLifetimeDollarsPurchased,
            4000038 => Self::InvalidLifetimeDollarsRefunded,
            4000039 => Self::InvalidPlatform,
            4000040 => Self::InvalidPlayTime,
            4000041 => Self::InvalidSampleContentProvided,
            4000042 => Self::InvalidUserStatus,
            4000043 => Self::InvalidTransactionNotConsumable,
            4000047 => Self::InvalidTransactionTypeNotSupported,
            4000048 => Self::AppTransactionIdNotSupportedError,
            4000161 => Self::InvalidImage,
            4000162 => Self::HeaderTooLong,
            4000163 => Self::BodyTooLong,
            4000164 => Self::InvalidLocale,
            4000175 => Self::AltTextTooLong,
            4000183 => Self::InvalidAppAccountTokenUUID,
            4000185 => Self::FamilyTransactionNotSupported,
            4000187 => Self::TransactionIdNotOriginalTransactionId,
            4000211 => Self::InvalidPerformanceTestRequest,
            4000212 => Self::InvalidRequestId,
            4000213 => Self::ExistingPerformanceTestRun,
            4000215 => Self::BadRequestRealtimeUrl,
            4000216 => Self::BadRequestImageSize,
            4000218 => Self::BadRequestTooManyBulletPoints,
            4000219 => Self::BadRequestBulletPointTextTooLong,
            4000224 => Self::BadRequestAboveImageRequiresAnImage,
            4030004 => Self::SubscriptionExtensionIneligible,
            4030005 => Self::SubscriptionMaxExtension,
            4030007 => Self::FamilySharedSubscriptionExtensionIneligible,
            4030014 => Self::MaximumNumberOfImagesReached,
            4030016 => Self::MaximumNumberOfMessagesReached,
            4030017 => Self::MessageNotApproved,
            4030018 => Self::ImageNotApproved,
            4030019 => Self::ImageInUse,
            4030026 => Self::ForbiddenNoPassingTest,
            4040001 => Self::AccountNotFound,
            4040002 => Self::AccountNotFoundRetryable,
            4040003 => Self::AppNotFound,
            4040004 => Self::AppNotFoundRetryable,
            4040005 => Self::OriginalTransactionIdNotFound,
            4040006 => Self::OriginalTransactionIdNotFoundRetryable,
            4040007 => Self::ServerNotificationUrlNotFound,
            4040008 => Self::TestNotificationNotFound,
            4040009 => Self::StatusRequestNotFound,
            4040010 => Self::TransactionIdNotFound,
            4040014 => Self::ImageNotFound,
            4040015 => Self::MessageNotFound,
            4040018 => Self::PerformanceTestRunNotFound,
            4040019 => Self::AppTransactionDoesNotExist,
            4040020 => Self::DefaultMessageNotFound,
            4040021 => Self::RealtimeUrlNotFound,
            4090000 => Self::ImageAlreadyExists,
            4090001 => Self::MessageAlreadyExists,
            4290000 => Self::RateLimitExceeded,
            5000000 => Self::GeneralInternal,
            5000001 => Self::GeneralInternalRetryable,
            _ => Self::Unknown,
        }
    }
}

/// Every variant is recovered from its own code.
pub proof fn lemma_apierrorcode_from_code_of_code(e: ApiErrorCode)
    ensures
        ApiErrorCode::variant_of_code(e.error_code()) == e,
{
}

/// A code that names a known variant is that variant's code.
pub proof fn lemma_apierrorcode_code_of_known_variant(code: i64)
    ensures
        ApiErrorCode::variant_of_code(code) != ApiErrorCode::Unknown ==> ApiErrorCode::variant_of_code(code).error_code() == code,
{
}


/// The App Store Server API client: its settings, and the call each endpoint makes.
pub struct AppStoreServerApiClient {
    inner: ApiClient,
}

/// The version text of a transaction-history call.
pub open spec fn history_version_text(version: GetTransactionHistoryVersion) -> Seq<char> {
    match version {
        GetTransactionHistoryVersion::V1 => "v1"@,
        GetTransactionHistoryVersion::V2 => "v2"@,
    }
}

impl AppStoreServerApiClient {
    /// The client's settings.
    pub closed spec fn settings(&self) -> ApiClient {
        self.inner
    }

    /// Creates a client; the Xcode environment is refused.
    pub fn new(signing_key: Vec<u8>, key_id: &str, issuer_id: &str, bundle_id: &str, environment: Environment) -> (res:
        Result<Self, ConfigurationError>)
        ensures
            match environment_base_url(environment) {
                None => res matches Err(ConfigurationError::InvalidEnvironment(m)) && m@ == xcode_refusal(),
                Some(url) => res matches Ok(c) && c.settings().base_url_view() == url
                    && c.settings().signing_key_view() == signing_key@ && c.settings().key_id_view() == key_id@
                    && c.settings().issuer_id_view() == issuer_id@ && c.settings().bundle_id_view() == bundle_id@,
            },
    {
        let inner = ApiClient::new(signing_key, key_id, issuer_id, bundle_id, environment)?;
        Ok(AppStoreServerApiClient { inner })
    }

    /// The client's settings, which build and authorise each call.
    pub fn api_client(&self) -> (c: &ApiClient)
        ensures
            *c == self.settings(),
    {
        &self.inner
    }

    /// The call that gets a customer's transaction history: the query holds the
    /// revision and the request's constraints, in the order of [`history_query`].
    pub fn get_transaction_history(
        &self,
        transaction_id: &str,
        revision: Option<&str>,
        transaction_history_request: &TransactionHistoryRequest,
        version: GetTransactionHistoryVersion,
    ) -> (r: ApiRequest)
        ensures
            r@ == (
                HttpMethod::Get,
                "/inApps/"@ + history_version_text(version) + "/history/"@ + transaction_id@,
                history_query(
                    match revision {
                        Some(v) => Some(v@),
                        None => None,
                    },
                    *transaction_history_request,
                ),
                None::<(Seq<u8>, Seq<char>)>,
                true,
            ),
    {
        let path = path_around("/inApps/", version.as_str(), "/history/");
        let mut full = path;
        full.append(transaction_id);
        plan(HttpMethod::Get, full, transaction_history_query(revision, transaction_history_request), None, true)
    }

    /// The transaction-history call of the first version of the endpoint.
    pub fn get_transaction_history_v1(
        &self,
        transaction_id: &str,
        revision: Option<&str>,
        transaction_history_request: &TransactionHistoryRequest,
    ) -> (r: ApiRequest)
        ensures
            r@ == (
                HttpMethod::Get,
                "/inApps/v1/history/"@ + transaction_id@,
                history_query(
                    match revision {
                        Some(v) => Some(v@),
                        None => None,
                    },
                    *transaction_history_request,
                ),
                None::<(Seq<u8>, Seq<char>)>,
                true,
            ),
    {
        proof {
            reveal_strlit("/inApps/");
            reveal_strlit("v1");
            reveal_strlit("/history/");
            reveal_strlit("/inApps/v1/history/");
            assert("/inApps/"@ + "v1"@ + "/history/"@ =~= "/inApps/v1/history/"@);
        }
        self.get_transaction_history(transaction_id, revision, transaction_history_request, GetTransactionHistoryVersion::V1)
    }

    /// The call that extends the renewal date for all eligible active subscribers of a product; `body` is the JSON request.
    pub fn extend_renewal_date_for_all_active_subscribers(&self, body: Vec<u8>) -> (r: ApiRequest)
        ensures
            r@ == (HttpMethod::Post, "/inApps/v1/subscriptions/extend/mass"@, no_query(), with_json(body@), true),
    {
        plan(HttpMethod::Post, String::from_str("/inApps/v1/subscriptions/extend/mass"), empty_query(), json_body(body), true)
    }

    /// The call that extends the renewal date of one subscription; `body` is the JSON request.
    pub fn extend_subscription_renewal_date(&self, original_transaction_id: &str, body: Vec<u8>) -> (r: ApiRequest)
        ensures
            r@ == (HttpMethod::Put, "/inApps/v1/subscriptions/extend/"@ + original_transaction_id@, no_query(), with_json(body@), true),
    {
        plan(HttpMethod::Put, path_with("/inApps/v1/subscriptions/extend/", original_transaction_id), empty_query(), json_body(body), true)
    }

    /// The call that gets the statuses of all of a customer's subscriptions, filtered by the raw status values given.
    pub fn get_all_subscription_statuses(&self, transaction_id: &str, status: Option<&Vec<i32>>) -> (r: ApiRequest)
        ensures
            r@ == (HttpMethod::Get, "/inApps/v1/subscriptions/"@ + transaction_id@, status_query(match status { Some(v) => Some(v@), None => None }), None::<(Seq<u8>, Seq<char>)>, true),
    {
        plan(HttpMethod::Get, path_with("/inApps/v1/subscriptions/", transaction_id), subscription_status_query(status), None, true)
    }

    /// The call that gets a customer's refunded purchases; an empty `revision` asks for the first page.
    pub fn get_refund_history(&self, transaction_id: &str, revision: &str) -> (r: ApiRequest)
        ensures
            r@ == (HttpMethod::Get, "/inApps/v2/refund/lookup/"@ + transaction_id@, nonempty_pair("revision"@, revision@), None::<(Seq<u8>, Seq<char>)>, true),
    {
        plan(HttpMethod::Get, path_with("/inApps/v2/refund/lookup/", transaction_id), nonempty_query("revision", revision), None, true)
    }

    /// The call that checks whether a renewal-date extension for all subscribers has completed.
    pub fn get_status_of_subscription_renewal_date_extensions(&self, request_identifier: &str, product_id: &str) -> (r: ApiRequest)
        ensures
            r@ == (HttpMethod::Get, "/inApps/v1/subscriptions/extend/mass/"@ + product_id@ + "/"@ + request_identifier@, no_query(), None::<(Seq<u8>, Seq<char>)>, true),
    {
        plan(HttpMethod::Get, path_with_two("/inApps/v1/subscriptions/extend/mass/", product_id, "/", request_identifier), empty_query(), None, true)
    }

    /// The call that checks the status of a test notification.
    pub fn get_test_notification_status(&self, test_notification_token: &str) -> (r: ApiRequest)
        ensures
            r@ == (HttpMethod::Get, "/inApps/v1/notifications/test/"@ + test_notification_token@, no_query(), None::<(Seq<u8>, Seq<char>)>, true),
    {
        plan(HttpMethod::Get, path_with("/inApps/v1/notifications/test/", test_notification_token), empty_query(), None, true)
    }

    /// The call that gets notification history; an empty `pagination_token` asks for the first page; `body` is the JSON request.
    pub fn get_notification_history(&self, pagination_token: &str, body: Vec<u8>) -> (r: ApiRequest)
        ensures
            r@ == (HttpMethod::Post, "/inApps/v1/notifications/history"@, nonempty_pair("paginationToken"@, pagination_token@), with_json(body@), true),
    {
        plan(HttpMethod::Post, String::from_str("/inApps/v1/notifications/history"), nonempty_query("paginationToken", pagination_token), json_body(body), true)
    }

    /// The call that gets information about a single transaction.
    pub fn get_transaction_info(&self, transaction_id: &str) -> (r: ApiRequest)
        ensures
            r@ == (HttpMethod::Get, "/inApps/v1/transactions/"@ + transaction_id@, no_query(), None::<(Seq<u8>, Seq<char>)>, true),
    {
        plan(HttpMethod::Get, path_with("/inApps/v1/transactions/", transaction_id), empty_query(), None, true)
    }

    /// The call that gets information about a customer's app transaction.
    pub fn get_app_transaction_info(&self, transaction_id: &str) -> (r: ApiRequest)
        ensures
            r@ == (HttpMethod::Get, "/inApps/v1/transactions/appTransactions/"@ + transaction_id@, no_query(), None::<(Seq<u8>, Seq<char>)>, true),
    {
        plan(HttpMethod::Get, path_with("/inApps/v1/transactions/appTransactions/", transaction_id), empty_query(), None, true)
    }

    /// The call that gets the purchases of an order.
    pub fn look_up_order_id(&self, order_id: &str) -> (r: ApiRequest)
        ensures
            r@ == (HttpMethod::Get, "/inApps/v1/lookup/"@ + order_id@, no_query(), None::<(Seq<u8>, Seq<char>)>, true),
    {
        plan(HttpMethod::Get, path_with("/inApps/v1/lookup/", order_id), empty_query(), None, true)
    }

    /// The call that asks for a test notification.
    pub fn request_test_notification(&self) -> (r: ApiRequest)
        ensures
            r@ == (HttpMethod::Post, "/inApps/v1/notifications/test"@, no_query(), None::<(Seq<u8>, Seq<char>)>, true),
    {
        plan(HttpMethod::Post, String::from_str("/inApps/v1/notifications/test"), empty_query(), None, true)
    }

    /// The call that sends consumption information about a refund request; `body` is the JSON request.
    pub fn send_consumption_information(&self, transaction_id: &str, body: Vec<u8>) -> (r: ApiRequest)
        ensures
            r@ == (HttpMethod::Put, "/inApps/v2/transactions/consumption/"@ + transaction_id@, no_query(), with_json(body@), false),
    {
        plan(HttpMethod::Put, path_with("/inApps/v2/transactions/consumption/", transaction_id), empty_query(), json_body(body), false)
    }

    /// The call that marks a transaction finished.
    pub fn finish_transaction(&self, transaction_id: &str) -> (r: ApiRequest)
        ensures
            r@ == (HttpMethod::Post, "/inApps/v1/transactions/"@ + transaction_id@ + "/finish"@, no_query(), None::<(Seq<u8>, Seq<char>)>, false),
    {
        plan(HttpMethod::Post, path_around("/inApps/v1/transactions/", transaction_id, "/finish"), empty_query(), None, false)
    }

    /// The call that sends consumption information in the first version of that request; `body` is the JSON request.
    pub fn send_consumption_data(&self, transaction_id: &str, body: Vec<u8>) -> (r: ApiRequest)
        ensures
            r@ == (HttpMethod::Put, "/inApps/v1/transactions/consumption/"@ + transaction_id@, no_query(), with_json(body@), false),
    {
        plan(HttpMethod::Put, path_with("/inApps/v1/transactions/consumption/", transaction_id), empty_query(), json_body(body), false)
    }

    /// The call that sets the app account token of a purchase; `body` is the JSON request.
    pub fn set_app_account_token(&self, original_transaction_id: &str, body: Vec<u8>) -> (r: ApiRequest)
        ensures
            r@ == (HttpMethod::Put, "/inApps/v1/transactions/"@ + original_transaction_id@ + "/appAccountToken"@, no_query(), with_json(body@), false),
    {
        plan(HttpMethod::Put, path_around("/inApps/v1/transactions/", original_transaction_id, "/appAccountToken"), empty_query(), json_body(body), false)
    }

    /// The call that uploads a PNG image for retention messaging, with the raw image-size value where given.
    pub fn upload_image(&self, image_identifier: &str, image: Vec<u8>, image_size: Option<&str>) -> (r: ApiRequest)
        ensures
            r@ == (HttpMethod::Put, "/inApps/v1/messaging/image/"@ + image_identifier@, optional_pair("imageSize"@, match image_size { Some(v) => Some(v@), None => None }), Some((image@, png_content_type())), false),
    {
        plan(HttpMethod::Put, path_with("/inApps/v1/messaging/image/", image_identifier), optional_query("imageSize", image_size), png_body(image), false)
    }

    /// The call that deletes an uploaded image.
    pub fn delete_image(&self, image_identifier: &str) -> (r: ApiRequest)
        ensures
            r@ == (HttpMethod::Delete, "/inApps/v1/messaging/image/"@ + image_identifier@, no_query(), None::<(Seq<u8>, Seq<char>)>, false),
    {
        plan(HttpMethod::Delete, path_with("/inApps/v1/messaging/image/", image_identifier), empty_query(), None, false)
    }

    /// The call that lists the uploaded images.
    pub fn get_image_list(&self) -> (r: ApiRequest)
        ensures
            r@ == (HttpMethod::Get, "/inApps/v1/messaging/image/list"@, no_query(), None::<(Seq<u8>, Seq<char>)>, true),
    {
        plan(HttpMethod::Get, String::from_str("/inApps/v1/messaging/image/list"), empty_query(), None, true)
    }

    /// The call that uploads a retention message; `body` is the JSON request.
    pub fn upload_message(&self, message_identifier: &str, body: Vec<u8>) -> (r: ApiRequest)
        ensures
            r@ == (HttpMethod::Put, "/inApps/v1/messaging/message/"@ + message_identifier@, no_query(), with_json(body@), false),
    {
        plan(HttpMethod::Put, path_with("/inApps/v1/messaging/message/", message_identifier), empty_query(), json_body(body), false)
    }

    /// The call that deletes an uploaded message.
    pub fn delete_message(&self, message_identifier: &str) -> (r: ApiRequest)
        ensures
            r@ == (HttpMethod::Delete, "/inApps/v1/messaging/message/"@ + message_identifier@, no_query(), None::<(Seq<u8>, Seq<char>)>, false),
    {
        plan(HttpMethod::Delete, path_with("/inApps/v1/messaging/message/", message_identifier), empty_query(), None, false)
    }

    /// The call that lists the uploaded messages.
    pub fn get_message_list(&self) -> (r: ApiRequest)
        ensures
            r@ == (HttpMethod::Get, "/inApps/v1/messaging/message/list"@, no_query(), None::<(Seq<u8>, Seq<char>)>, true),
    {
        plan(HttpMethod::Get, String::from_str("/inApps/v1/messaging/message/list"), empty_query(), None, true)
    }

    /// The call that configures the default message of a product in a locale; `body` is the JSON request.
    pub fn configure_default_message(&self, product_id: &str, locale: &str, body: Vec<u8>) -> (r: ApiRequest)
        ensures
            r@ == (HttpMethod::Put, "/inApps/v1/messaging/default/"@ + product_id@ + "/"@ + locale@, no_query(), with_json(body@), false),
    {
        plan(HttpMethod::Put, path_with_two("/inApps/v1/messaging/default/", product_id, "/", locale), empty_query(), json_body(body), false)
    }

    /// The call that deletes the default message of a product in a locale.
    pub fn delete_default_message(&self, product_id: &str, locale: &str) -> (r: ApiRequest)
        ensures
            r@ == (HttpMethod::Delete, "/inApps/v1/messaging/default/"@ + product_id@ + "/"@ + locale@, no_query(), None::<(Seq<u8>, Seq<char>)>, false),
    {
        plan(HttpMethod::Delete, path_with_two("/inApps/v1/messaging/default/", product_id, "/", locale), empty_query(), None, false)
    }

    /// The call that gets the default message of a product in a locale.
    pub fn get_default_message(&self, product_id: &str, locale: &str) -> (r: ApiRequest)
        ensures
            r@ == (HttpMethod::Get, "/inApps/v1/messaging/default/"@ + product_id@ + "/"@ + locale@, no_query(), None::<(Seq<u8>, Seq<char>)>, true),
    {
        plan(HttpMethod::Get, path_with_two("/inApps/v1/messaging/default/", product_id, "/", locale), empty_query(), None, true)
    }

    /// The call that configures the real-time URL; `body` is the JSON request.
    pub fn configure_realtime_url(&self, body: Vec<u8>) -> (r: ApiRequest)
        ensures
            r@ == (HttpMethod::Put, "/inApps/v1/messaging/realtime/url"@, no_query(), with_json(body@), false),
    {
        plan(HttpMethod::Put, String::from_str("/inApps/v1/messaging/realtime/url"), empty_query(), json_body(body), false)
    }

    /// The call that deletes the real-time URL.
    pub fn delete_realtime_url(&self) -> (r: ApiRequest)
        ensures
            r@ == (HttpMethod::Delete, "/inApps/v1/messaging/realtime/url"@, no_query(), None::<(Seq<u8>, Seq<char>)>, false),
    {
        plan(HttpMethod::Delete, String::from_str("/inApps/v1/messaging/realtime/url"), empty_query(), None, false)
    }

    /// The call that gets the real-time URL.
    pub fn get_realtime_url(&self) -> (r: ApiRequest)
        ensures
            r@ == (HttpMethod::Get, "/inApps/v1/messaging/realtime/url"@, no_query(), None::<(Seq<u8>, Seq<char>)>, true),
    {
        plan(HttpMethod::Get, String::from_str("/inApps/v1/messaging/realtime/url"), empty_query(), None, true)
    }

    /// The call that starts a performance test; `body` is the JSON request.
    pub fn initiate_performance_test(&self, body: Vec<u8>) -> (r: ApiRequest)
        ensures
            r@ == (HttpMethod::Post, "/inApps/v1/messaging/performanceTest"@, no_query(), with_json(body@), true),
    {
        plan(HttpMethod::Post, String::from_str("/inApps/v1/messaging/performanceTest"), empty_query(), json_body(body), true)
    }

    /// The call that gets the results of a performance test.
    pub fn get_performance_test_results(&self, request_id: &str) -> (r: ApiRequest)
        ensures
            r@ == (HttpMethod::Get, "/inApps/v1/messaging/performanceTest/result/"@ + request_id@, no_query(), None::<(Seq<u8>, Seq<char>)>, true),
    {
        plan(HttpMethod::Get, path_with("/inApps/v1/messaging/performanceTest/result/", request_id), empty_query(), None, true)
    }

}

} // verus!
