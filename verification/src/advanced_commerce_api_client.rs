//! The Advanced Commerce API error catalogue and the error its client returns.
use vstd::prelude::*;
use crate::api_client::error::{api_client_error_text, ApiClientError, ConfigurationError};
use crate::api_client::requests::{
    empty_query, environment_base_url, json_body, no_query, path_with, plan, with_json, xcode_refusal, ApiClient,
    ApiRequest, Environment, HttpMethod,
};

verus! {

/// The error returned by the Advanced Commerce API client: the HTTP-level error and
/// the catalogued API error its raw code stands for.
#[derive(Debug, Clone)]
pub struct AdvancedCommerceApiClientError {
    inner: ApiClientError,
    api_error: ApiErrorCode,
}

impl AdvancedCommerceApiClientError {
    /// The HTTP-level error this error wraps.
    pub closed spec fn inner_error(&self) -> ApiClientError {
        self.inner
    }

    /// The catalogued API error.
    pub closed spec fn catalogued(&self) -> ApiErrorCode {
        self.api_error
    }

    pub fn status(&self) -> (s: u16)
        ensures
            s == self.inner_error()@.0,
    {
        self.inner.status()
    }

    pub fn raw_code(&self) -> (c: Option<i64>)
        ensures
            c == self.inner_error()@.1,
    {
        self.inner.raw_code()
    }

    pub fn message(&self) -> (m: Option<&str>)
        ensures
            m is Some <==> self.inner_error()@.2 is Some,
            m matches Some(t) ==> self.inner_error()@.2 == Some(t@),
    {
        self.inner.message()
    }

    pub fn api_error(&self) -> (e: ApiErrorCode)
        ensures
            e == self.catalogued(),
    {
        self.api_error
    }

    pub fn inner(&self) -> (i: &ApiClientError)
        ensures
            *i == self.inner_error(),
    {
        &self.inner
    }

    /// The rendered error: the HTTP-level error, then the catalogued API error's name.
    pub fn to_string(&self) -> (s: String)
        ensures
            s@ == api_client_error_text(self.inner_error()@) + ", API Error: "@ + self.catalogued().variant_name(),
    {
        let mut s = self.inner.to_string();
        s.append(", API Error: ");
        s.append(self.api_error.name());
        s
    }
}

impl From<ApiClientError> for AdvancedCommerceApiClientError {
    fn from(inner: ApiClientError) -> (r: Self)
        ensures
            r.inner_error() == inner,
            r.catalogued() == match inner@.1 {
                Some(code) => ApiErrorCode::variant_of_code(code),
                None => ApiErrorCode::Unknown,
            },
    {
        let api_error = match inner.raw_code() {
            Some(code) => ApiErrorCode::from_code(code),
            None => ApiErrorCode::Unknown,
        };
        Self { inner, api_error }
    }
}

impl vstd::std_specs::convert::FromSpecImpl<ApiClientError> for AdvancedCommerceApiClientError {
    open spec fn obeys_from_spec() -> bool {
        true
    }

    closed spec fn from_spec(inner: ApiClientError) -> Self {
        AdvancedCommerceApiClientError {
            inner,
            api_error: match inner@.1 {
                Some(code) => ApiErrorCode::variant_of_code(code),
                None => ApiErrorCode::Unknown,
            },
        }
    }
}

/// Error codes of the Advanced Commerce API.
#[derive(Debug, Copy, Clone, PartialEq, Eq, Hash, Structural)]
pub enum ApiErrorCode {
    /// [Documentation](https://developer.apple.com/documentation/advancedcommerceapi/acapriceincreaseisnotcurrentlysupportedinindiaerror)
    ACAPriceIncreaseIsNotCurrentlySupportedInIndiaError,

    /// Prorated price should not be present for change items with type effective later.
    /// [Documentation](https://developer.apple.com/documentation/advancedcommerceapi/invalidproratedpriceforchangeitemwitheffectivelatererror)
    InvalidProratedPriceForChangeItemWithEffectiveLaterError,

    /// The subscription offer configuration is invalid. Free trial offers must use a period count of 1.
    /// [Documentation](https://developer.apple.com/documentation/advancedcommerceapi/freetrialoffermustuseperiodcountofoneerror)
    FreeTrialOfferMustUsePeriodCountOfOneError,

    /// Migration isn't allowed because a price increase was already communicated to the customer.
    /// [Documentation](https://developer.apple.com/documentation/advancedcommerceapi/migrationnotallowedwhenpriceincreasecommunicatederror)
    MigrationNotAllowedWhenPriceIncreaseCommunicatedError,

    /// The transaction was already refunded.
    /// [Documentation](https://developer.apple.com/documentation/advancedcommerceapi/alreadyrefunded)
    AlreadyRefunded,

    /// When included, provide at least one item in items.
    /// [Documentation](https://developer.apple.com/documentation/advancedcommerceapi/atleastoneitem)
    AtLeastOneItem,

    /// Provide either the displayName or a description.
    /// [Documentation](https://developer.apple.com/documentation/advancedcommerceapi/atleastoneofdisplaynameordescription)
    AtLeastOneOfDisplayNameOrDescription,

    /// Bill cycle reset with effective later.
    /// [Documentation](https://developer.apple.com/documentation/advancedcommerceapi/billingcycleresetwitheffectivelater)
    BillingCycleResetWithEffectiveLater,

    /// The targeted item in changeItems wasn't found.
    /// [Documentation](https://developer.apple.com/documentation/advancedcommerceapi/changeitemnotfound)
    ChangeItemNotFound,

    /// [Documentation](https://developer.apple.com/documentation/advancedcommerceapi/dependentskuscannotbechainederror)
    DependentSKUsCannotBeChainedError,

    /// Invalid request. dependentSKUs can't be shared between multiple SKUs.
    /// [Documentation](https://developer.apple.com/documentation/advancedcommerceapi/dependentskuscannotbesharederror)
    DependentSKUsCannotBeSharedError,

    /// Exceeds the maximum length of the description field.
    /// [Documentation](https://developer.apple.com/documentation/advancedcommerceapi/descriptionlengthexceeded)
    DescriptionLengthExceeded,

    /// Exceeds the maximum length of the displayName field.
    /// [Documentation](https://developer.apple.com/documentation/advancedcommerceapi/displaynamelengthexceeded)
    DisplayNameLengthExceeded,

    /// The addItems and changeItems entries cannot be empty.
    /// [Documentation](https://developer.apple.com/documentation/advancedcommerceapi/emptyaddchangeitems)
    EmptyAddChangeItems,

    /// An unknown error occurred.
    /// [Documentation](https://developer.apple.com/documentation/advancedcommerceapi/generalinternal)
    GeneralInternal,

    /// An unknown error occurred. Please try again.
    /// [Documentation](https://developer.apple.com/documentation/advancedcommerceapi/generalinternalretryable)
    GeneralInternalRetryable,

    /// The subscription is not active.
    /// [Documentation](https://developer.apple.com/documentation/advancedcommerceapi/inactiveacasub)
    InactiveACASub,

    /// Insufficient funds for refund.
    /// [Documentation](https://developer.apple.com/documentation/advancedcommerceapi/insufficientfunds)
    InsufficientFunds,

    /// The amount is invalid.
    /// [Documentation](https://developer.apple.com/documentation/advancedcommerceapi/invalidamount)
    InvalidAmount,

    /// The appAccountToken field must contain a valid UUID or an empty string.
    /// [Documentation](https://developer.apple.com/documentation/advancedcommerceapi/invalidappaccounttoken)
    InvalidAppAccountToken,

    /// The change reason is invalid.
    /// [Documentation](https://developer.apple.com/documentation/advancedcommerceapi/invalidchangereason)
    InvalidChangeReason,

    /// The consistencyToken value is invalid.
    /// [Documentation](https://developer.apple.com/documentation/advancedcommerceapi/invalidconsistencytoken)
    InvalidConsistencyToken,

    /// The currency value is invalid.
    /// [Documentation](https://developer.apple.com/documentation/advancedcommerceapi/invalidcurrency)
    InvalidCurrency,

    /// The description is invalid.
    /// [Documentation](https://developer.apple.com/documentation/advancedcommerceapi/invaliddescription)
    InvalidDescription,

    /// The displayName is invalid.
    /// [Documentation](https://developer.apple.com/documentation/advancedcommerceapi/invaliddisplayname)
    InvalidDisplayName,

    /// The offer periodCount is invalid.
    /// [Documentation](https://developer.apple.com/documentation/advancedcommerceapi/invalidofferperiodcount)
    InvalidOfferPeriodCount,

    /// The offer period is invalid.
    /// [Documentation](https://developer.apple.com/documentation/advancedcommerceapi/invalidofferperiod)
    InvalidOfferPeriod,

    /// The subscription offer price is higher than the regular subscription price.
    /// [Documentation](https://developer.apple.com/documentation/advancedcommerceapi/invalidofferprice)
    InvalidOfferPrice,

    /// The offer reason is invalid.
    /// [Documentation](https://developer.apple.com/documentation/advancedcommerceapi/invalidofferreason)
    InvalidOfferReason,

    /// The operation is invalid.
    /// [Documentation](https://developer.apple.com/documentation/advancedcommerceapi/invalidoperation)
    InvalidOperation,

    /// The previous subscription targeted is invalid.
    /// [Documentation](https://developer.apple.com/documentation/advancedcommerceapi/invalidprevioussubscription)
    InvalidPreviousSubscription,

    /// Previous original transaction id is invalid.
    /// [Documentation](https://developer.apple.com/documentation/advancedcommerceapi/invalidprevioustransactionid)
    InvalidPreviousTransactionID,

    /// Price provided for a changed item with an offer while subject to a price increase was invalid.
    /// [Documentation](https://developer.apple.com/documentation/advancedcommerceapi/invalidpriceforchangeiteminpriceincreaseerror)
    InvalidPriceForChangeItemInPriceIncreaseError,

    /// Product changes are invalid.
    /// [Documentation](https://developer.apple.com/documentation/advancedcommerceapi/invalidproductchanges)
    InvalidProductChanges,

    /// The requested product to change doesn't exist.
    /// [Documentation](https://developer.apple.com/documentation/advancedcommerceapi/invalidproduct)
    InvalidProduct,

    /// The prorated price was invalid.
    /// [Documentation](https://developer.apple.com/documentation/advancedcommerceapi/invalidproratedprice)
    InvalidProratedPrice,

    /// The refundReason is invalid.
    /// [Documentation](https://developer.apple.com/documentation/advancedcommerceapi/invalidrefundreason)
    InvalidRefundReason,

    /// The refundType is invalid.
    /// [Documentation](https://developer.apple.com/documentation/advancedcommerceapi/invalidrefundtype)
    InvalidRefundType,

    /// The renewal period is invalid.
    /// [Documentation](https://developer.apple.com/documentation/advancedcommerceapi/invalidrenewalperiod)
    InvalidRenewalPeriod,

    /// The renewal price is invalid.
    /// [Documentation](https://developer.apple.com/documentation/advancedcommerceapi/invalidrenewalprice)
    InvalidRenewalPrice,

    /// The requestReferenceId value is invalid.
    /// [Documentation](https://developer.apple.com/documentation/advancedcommerceapi/invalidrequestreferenceid)
    InvalidRequestReferenceID,

    /// The salable duration is invalid.
    /// [Documentation](https://developer.apple.com/documentation/advancedcommerceapi/invalidsalableduration)
    InvalidSalableDuration,

    /// The targeted salable isn't configured as a generic salable.
    /// [Documentation](https://developer.apple.com/documentation/advancedcommerceapi/invalidsalable)
    InvalidSalable,

    /// The signature is invalid.
    /// [Documentation](https://developer.apple.com/documentation/advancedcommerceapi/invalidsignature)
    InvalidSignature,

    /// The SKU was invalid.
    /// [Documentation](https://developer.apple.com/documentation/advancedcommerceapi/invalidsku)
    InvalidSKU,

    /// SKU values provided in request must be a SKU that will renew.
    /// [Documentation](https://developer.apple.com/documentation/advancedcommerceapi/invalidskuprovidedmustbecurrentskusettorenewerror)
    InvalidSKUProvidedMustBeCurrentSKUSetToRenewError,

    /// The storefront value is invalid.
    /// [Documentation](https://developer.apple.com/documentation/advancedcommerceapi/invalidstorefront)
    InvalidStorefront,

    /// The targetProductID value is invalid.
    /// [Documentation](https://developer.apple.com/documentation/advancedcommerceapi/invalidtargetproductid)
    InvalidTargetProductID,

    /// The taxCode is invalid.
    /// [Documentation](https://developer.apple.com/documentation/advancedcommerceapi/invalidtaxproductcode)
    InvalidTaxProductCode,

    /// The transactionId is invalid.
    /// [Documentation](https://developer.apple.com/documentation/advancedcommerceapi/invalidtransactionid)
    InvalidTransactionId,

    /// The same SKU can't be repeated in this request.
    /// [Documentation](https://developer.apple.com/documentation/advancedcommerceapi/itemcannotbespecifiedmultipletimeserror)
    ItemCannotBeSpecifiedMultipleTimesError,

    /// The number of items in subscription exceeds the limit.
    /// [Documentation](https://developer.apple.com/documentation/advancedcommerceapi/itemlimitexceeded)
    ItemLimitExceeded,

    /// The payload is malformed.
    /// [Documentation](https://developer.apple.com/documentation/advancedcommerceapi/malformedpayload)
    MalformedPayload,

    /// The request contains a billing period that doesn't align with the subscription's billing cycle.
    /// [Documentation](https://developer.apple.com/documentation/advancedcommerceapi/misalignedbillingcycle)
    MisalignedBillingCycle,

    /// The storefronts mismatch.
    /// [Documentation](https://developer.apple.com/documentation/advancedcommerceapi/mismatchedstorefront)
    MismatchedStorefront,

    /// Pricing isn't configured for the storefront.
    /// [Documentation](https://developer.apple.com/documentation/advancedcommerceapi/missingpricingconfigforstorefront)
    MissingPricingConfigForStorefront,

    /// All items must be updated on a period change.
    /// [Documentation](https://developer.apple.com/documentation/advancedcommerceapi/missingupdateditemswithperiodchange)
    MissingUpdatedItemsWithPeriodChange,

    /// More items were provided than allowed.
    /// [Documentation](https://developer.apple.com/documentation/advancedcommerceapi/moreitemsthanallowed)
    MoreItemsThanAllowed,

    /// More offers were provided than allowed.
    /// [Documentation](https://developer.apple.com/documentation/advancedcommerceapi/moreoffersthanallowed)
    MoreOffersThanAllowed,

    /// Multiple operations on a single SKU isn't allowed.
    /// [Documentation](https://developer.apple.com/documentation/advancedcommerceapi/multipleoperationsonsinglesku)
    MultipleOperationsOnSingleSKU,

    /// Prorated price and offer price are mutually exclusive.
    /// [Documentation](https://developer.apple.com/documentation/advancedcommerceapi/multipleprices)
    MultiplePrices,

    /// The price field must contain a positive number.
    /// [Documentation](https://developer.apple.com/documentation/advancedcommerceapi/negativeprice)
    NegativePrice,

    /// Exceeds the maximum length of the price field.
    /// [Documentation](https://developer.apple.com/documentation/advancedcommerceapi/negativeproratedprice)
    NegativeProratedPrice,

    /// The refundAmount must be a positive number.
    /// [Documentation](https://developer.apple.com/documentation/advancedcommerceapi/negativerefundamount)
    NegativeRefundAmount,

    /// The required field, advancedCommerceData, was null.
    /// [Documentation](https://developer.apple.com/documentation/advancedcommerceapi/nulladvancedcommercedata)
    NullAdvancedCommerceData,

    /// The required field, currency, is missing.
    /// [Documentation](https://developer.apple.com/documentation/advancedcommerceapi/nullcurrency)
    NullCurrency,

    /// The required field, currentSKU, is missing.
    /// [Documentation](https://developer.apple.com/documentation/advancedcommerceapi/nullcurrentsku)
    NullCurrentSKU,

    /// The required field, description, is missing.
    /// [Documentation](https://developer.apple.com/documentation/advancedcommerceapi/nulldescription)
    NullDescription,

    /// The required field, descriptors, is missing.
    /// [Documentation](https://developer.apple.com/documentation/advancedcommerceapi/nulldescriptors)
    NullDescriptors,

    /// The required field, displayName, is missing.
    /// [Documentation](https://developer.apple.com/documentation/advancedcommerceapi/nulldisplayname)
    NullDisplayName,

    /// The required field, effective, is missing.
    /// [Documentation](https://developer.apple.com/documentation/advancedcommerceapi/nulleffective)
    NullEffective,

    /// The required field, item, is missing.
    /// [Documentation](https://developer.apple.com/documentation/advancedcommerceapi/nullitem)
    NullItem,

    /// The required field, items, is missing.
    /// [Documentation](https://developer.apple.com/documentation/advancedcommerceapi/nullitems)
    NullItems,

    /// The required field, SKU in changeItems, is missing.
    /// [Documentation](https://developer.apple.com/documentation/advancedcommerceapi/nullnewsku)
    NullNewSKU,

    /// The required field, offer period, is missing.
    /// [Documentation](https://developer.apple.com/documentation/advancedcommerceapi/nullofferperiod)
    NullOfferPeriod,

    /// The required field, periodCount, is missing.
    /// [Documentation](https://developer.apple.com/documentation/advancedcommerceapi/nullperiodcount)
    NullPeriodCount,

    /// The required field, period, is missing.
    /// [Documentation](https://developer.apple.com/documentation/advancedcommerceapi/nullperiod)
    NullPeriod,

    /// The required field, price, is missing.
    /// [Documentation](https://developer.apple.com/documentation/advancedcommerceapi/nullprice)
    NullPrice,

    /// The required field, reason, is missing.
    /// [Documentation](https://developer.apple.com/documentation/advancedcommerceapi/nullreason)
    NullReason,

    /// The refundAmount value is invalid.
    /// [Documentation](https://developer.apple.com/documentation/advancedcommerceapi/nullrefundamount)
    NullRefundAmount,

    /// The required field, refundReason, is missing.
    /// [Documentation](https://developer.apple.com/documentation/advancedcommerceapi/nullrefundreason)
    NullRefundReason,

    /// The required field, refundRiskingPreference, is missing.
    /// [Documentation](https://developer.apple.com/documentation/advancedcommerceapi/nullrefundrisking)
    NullRefundRisking,

    /// The required field, refundType, is missing.
    /// [Documentation](https://developer.apple.com/documentation/advancedcommerceapi/nullrefundtype)
    NullRefundType,

    /// The required field, requestInfo, is missing.
    /// [Documentation](https://developer.apple.com/documentation/advancedcommerceapi/nullrequestinfo)
    NullRequestInfo,

    /// The required field, requestReferenceId, is missing.
    /// [Documentation](https://developer.apple.com/documentation/advancedcommerceapi/nullrequestreferenceid)
    NullRequestReferenceID,

    /// The required field, retainBillingCycle, is missing.
    /// [Documentation](https://developer.apple.com/documentation/advancedcommerceapi/nullretainbillingcycle)
    NullRetainBillingCycle,

    /// The required field, SKU, is missing.
    /// [Documentation](https://developer.apple.com/documentation/advancedcommerceapi/nullsku)
    NullSKU,

    /// The required field, storefront, is missing.
    /// [Documentation](https://developer.apple.com/documentation/advancedcommerceapi/nullstorefront)
    NullStorefront,

    /// The required field, targetProductID, is missing.
    /// [Documentation](https://developer.apple.com/documentation/advancedcommerceapi/nulltargetproductid)
    NullTargetProductID,

    /// The required field, taxCode, is missing.
    /// [Documentation](https://developer.apple.com/documentation/advancedcommerceapi/nulltaxcode)
    NullTaxCode,

    /// The required field, transactionId, is missing.
    /// [Documentation](https://developer.apple.com/documentation/advancedcommerceapi/nulltransactionid)
    NullTransactionId,

    /// The required field, version, is missing.
    /// [Documentation](https://developer.apple.com/documentation/advancedcommerceapi/nullversion)
    NullVersion,

    /// An existing offer prevents changes to the item mid-cycle.
    /// [Documentation](https://developer.apple.com/documentation/advancedcommerceapi/offerpreventsitemmidcyclechange)
    OfferPreventsItemMidCycleChange,

    /// At least one type of change must be provided in a modify subscription request.
    /// [Documentation](https://developer.apple.com/documentation/advancedcommerceapi/oneitemneededinmodify)
    OneItemNeededInModify,

    /// The operation isn't allowed.
    /// [Documentation](https://developer.apple.com/documentation/advancedcommerceapi/operationnotallowed)
    OperationNotAllowed,

    /// If one item has a refundReason value of SIMULATE_REFUND_DECLINE, all items must have a refundReason value of SIMULATE_REFUND_DECLINE.
    /// [Documentation](https://developer.apple.com/documentation/advancedcommerceapi/partialsimulaterefunddecline)
    PartialSimulateRefundDecline,

    /// Pending subscription changes must specify a renewalItem, and if there are no pending changes, a renewalItem cannot be specified.
    /// [Documentation](https://developer.apple.com/documentation/advancedcommerceapi/pendingchangesmismatch)
    PendingChangesMismatch,

    /// The transaction has pending refunds.
    /// [Documentation](https://developer.apple.com/documentation/advancedcommerceapi/pendingrefund)
    PendingRefund,

    /// A period change at next cycle conflicts with addition at the current period.
    /// [Documentation](https://developer.apple.com/documentation/advancedcommerceapi/periodchangeeffectiveconflict)
    PeriodChangeEffectiveConflict,

    /// Period change immediately with effective later.
    /// [Documentation](https://developer.apple.com/documentation/advancedcommerceapi/periodchangeimmediatewitheffectiveatnextbillingcycle)
    PeriodChangeImmediateWithEffectiveAtNextBillingCycle,

    /// Period count must be a positive number.
    /// [Documentation](https://developer.apple.com/documentation/advancedcommerceapi/periodcountnotpositive)
    PeriodCountNotPositive,

    /// AdvancedCommercePeriod reset conflicts with retaining billing cycle.
    /// [Documentation](https://developer.apple.com/documentation/advancedcommerceapi/periodresetwithretainbillingcycle)
    PeriodResetWithRetainBillingCycle,

    /// A price change can't be issued when the price increase has already been communicated.
    /// [Documentation](https://developer.apple.com/documentation/advancedcommerceapi/pricechangecannotbeissuedwhenalreadycommunicatederror)
    PriceChangeCannotBeIssuedWhenAlreadyCommunicatedError,

    /// Changing the price isn't supported as part of a modify items request.
    /// [Documentation](https://developer.apple.com/documentation/advancedcommerceapi/pricechangenotsupportedthroughmodifyitems)
    PriceChangeNotSupportedThroughModifyItems,

    /// Provided SKU is already owned.
    /// [Documentation](https://developer.apple.com/documentation/advancedcommerceapi/productalreadyexists)
    ProductAlreadyExists,

    /// The product isn't eligible for the requested operation.
    /// [Documentation](https://developer.apple.com/documentation/advancedcommerceapi/productnoteligible)
    ProductNotEligible,

    /// Product not found.
    /// [Documentation](https://developer.apple.com/documentation/advancedcommerceapi/productnotfound)
    ProductNotFound,

    /// The customer doesn't own the product.
    /// [Documentation](https://developer.apple.com/documentation/advancedcommerceapi/productnotowned)
    ProductNotOwned,

    /// Only requests against the latest transaction can have a PRORATED refundType value.
    /// [Documentation](https://developer.apple.com/documentation/advancedcommerceapi/proratedonlylatesttransaction)
    ProratedOnlyLatestTransaction,

    /// Rate limit exceeded.
    /// [Documentation](https://developer.apple.com/documentation/advancedcommerceapi/ratelimitexceeded)
    RateLimitExceeded,

    /// Can't provide the refund amount because the refundType isn't CUSTOM.
    /// [Documentation](https://developer.apple.com/documentation/advancedcommerceapi/refundamountwithoutcustom)
    RefundAmountWithoutCustom,

    /// The active subscription must contain at least one item and cannot be completely empty.
    /// [Documentation](https://developer.apple.com/documentation/advancedcommerceapi/removalallnotallowed)
    RemovalAllNotAllowed,

    /// A product in removeItems wasn't found for the given subscription.
    /// [Documentation](https://developer.apple.com/documentation/advancedcommerceapi/removeitemnotfound)
    RemoveItemNotFound,

    /// The removeItems object was present without addItems or changeItems.
    /// [Documentation](https://developer.apple.com/documentation/advancedcommerceapi/removeitemswithoutaddorchangeitems)
    RemoveItemsWithoutAddOrChangeItems,

    /// The requestReferenceId was repeated.
    /// [Documentation](https://developer.apple.com/documentation/advancedcommerceapi/repeatedrequestreferenceid)
    RepeatedRequestReferenceId,

    /// Only active subscriptions are revocable.
    /// [Documentation](https://developer.apple.com/documentation/advancedcommerceapi/revokeoninactivesubscription)
    RevokeOnInactiveSubscription,

    /// The type SIMULATE_REFUND_DECLINE is only valid in Sandbox.
    /// [Documentation](https://developer.apple.com/documentation/advancedcommerceapi/simulaterefunddeclineonlyinsandbox)
    SimulateRefundDeclineOnlyInSandbox,

    /// Exceeds the maximum length of the SKU field.
    /// [Documentation](https://developer.apple.com/documentation/advancedcommerceapi/skulengthexceeded)
    SKULengthExceeded,

    /// The storefront changed.
    /// [Documentation](https://developer.apple.com/documentation/advancedcommerceapi/storefrontchange)
    StorefrontChange,

    /// The subscription is already active, and cannot be reactivated or renewed at this time.
    /// [Documentation](https://developer.apple.com/documentation/advancedcommerceapi/subscriptionalreadyactive)
    SubscriptionAlreadyActive,

    /// The subscription already exists.
    /// [Documentation](https://developer.apple.com/documentation/advancedcommerceapi/subscriptionalreadyexists)
    SubscriptionAlreadyExists,

    /// The subscription was already migrated.
    /// [Documentation](https://developer.apple.com/documentation/advancedcommerceapi/subscriptionalreadymigrated)
    SubscriptionAlreadyMigrated,

    /// The subscription doesn't exist.
    /// [Documentation](https://developer.apple.com/documentation/advancedcommerceapi/subscriptiondoesnotexist)
    SubscriptionDoesNotExist,

    /// The subscription isn't eligible for the requested changes.
    /// [Documentation](https://developer.apple.com/documentation/advancedcommerceapi/subscriptionnoteligible)
    SubscriptionNotEligible,

    /// Transaction id not found.
    /// [Documentation](https://developer.apple.com/documentation/advancedcommerceapi/transactionidnotfound)
    TransactionIdNotFound,

    /// The transaction is not refundable.
    /// [Documentation](https://developer.apple.com/documentation/advancedcommerceapi/transactionnotrefundable)
    TransactionNotRefundable,

    /// The transaction can't be refunded; customer can contact Apple Support for assistance.
    /// [Documentation](https://developer.apple.com/documentation/advancedcommerceapi/transactioncannotberefundedcontactsupport)
    TransactionCannotBeRefundedContactSupport,

    /// Unauthorized.
    /// [Documentation](https://developer.apple.com/documentation/advancedcommerceapi/unauthorized)
    Unauthorized,

    /// The value of version is invalid.
    /// [Documentation](https://developer.apple.com/documentation/advancedcommerceapi/unexpectedversion)
    UnexpectedVersion,

    /// An unknown error
    Unknown,
}

impl ApiErrorCode {
    /// The numeric error code the API uses for this variant.
    pub open spec fn error_code(self) -> i64 {
        match self {
            ApiErrorCode::ACAPriceIncreaseIsNotCurrentlySupportedInIndiaError => 4000221i64,
            ApiErrorCode::InvalidProratedPriceForChangeItemWithEffectiveLaterError => 4000222i64,
            ApiErrorCode::FreeTrialOfferMustUsePeriodCountOfOneError => 4000223i64,
            ApiErrorCode::MigrationNotAllowedWhenPriceIncreaseCommunicatedError => 4030027i64,
            ApiErrorCode::AlreadyRefunded => 4030021i64,
            ApiErrorCode::AtLeastOneItem => 4000160i64,
            ApiErrorCode::AtLeastOneOfDisplayNameOrDescription => 4000165i64,
            ApiErrorCode::BillingCycleResetWithEffectiveLater => 4000148i64,
            ApiErrorCode::ChangeItemNotFound => 4000146i64,
            ApiErrorCode::DependentSKUsCannotBeChainedError => 4000193i64,
            ApiErrorCode::DependentSKUsCannotBeSharedError => 4000192i64,
            ApiErrorCode::DescriptionLengthExceeded => 4000088i64,
            ApiErrorCode::DisplayNameLengthExceeded => 4000089i64,
            ApiErrorCode::EmptyAddChangeItems => 4000139i64,
            ApiErrorCode::GeneralInternal => 5000000i64,
            ApiErrorCode::GeneralInternalRetryable => 5000001i64,
            ApiErrorCode::InactiveACASub => 4030015i64,
            ApiErrorCode::InsufficientFunds => 4030020i64,
            ApiErrorCode::InvalidAmount => 4000132i64,
            ApiErrorCode::InvalidAppAccountToken => 4000033i64,
            ApiErrorCode::InvalidChangeReason => 4000125i64,
            ApiErrorCode::InvalidConsistencyToken => 4000082i64,
            ApiErrorCode::InvalidCurrency => 4000053i64,
            ApiErrorCode::InvalidDescription => 4000119i64,
            ApiErrorCode::InvalidDisplayName => 4000118i64,
            ApiErrorCode::InvalidOfferPeriodCount => 4000129i64,
            ApiErrorCode::InvalidOfferPeriod => 4000128i64,
            ApiErrorCode::InvalidOfferPrice => 4000152i64,
            ApiErrorCode::InvalidOfferReason => 4000126i64,
            ApiErrorCode::InvalidOperation => 4000172i64,
            ApiErrorCode::InvalidPreviousSubscription => 4000113i64,
            ApiErrorCode::InvalidPreviousTransactionID => 4000096i64,
            ApiErrorCode::InvalidPriceForChangeItemInPriceIncreaseError => 4000214i64,
            ApiErrorCode::InvalidProductChanges => 4000115i64,
            ApiErrorCode::InvalidProduct => 4000121i64,
            ApiErrorCode::InvalidProratedPrice => 4000151i64,
            ApiErrorCode::InvalidRefundReason => 4000124i64,
            ApiErrorCode::InvalidRefundType => 4000123i64,
            ApiErrorCode::InvalidRenewalPeriod => 4000130i64,
            ApiErrorCode::InvalidRenewalPrice => 4000131i64,
            ApiErrorCode::InvalidRequestReferenceID => 4000081i64,
            ApiErrorCode::InvalidSalableDuration => 4000117i64,
            ApiErrorCode::InvalidSalable => 4000116i64,
            ApiErrorCode::InvalidSignature => 4000174i64,
            ApiErrorCode::InvalidSKU => 4000122i64,
            ApiErrorCode::InvalidSKUProvidedMustBeCurrentSKUSetToRenewError => 4000220i64,
            ApiErrorCode::InvalidStorefront => 4000028i64,
            ApiErrorCode::InvalidTargetProductID => 4000167i64,
            ApiErrorCode::InvalidTaxProductCode => 4000127i64,
            ApiErrorCode::InvalidTransactionId => 4000006i64,
            ApiErrorCode::ItemCannotBeSpecifiedMultipleTimesError => 4000194i64,
            ApiErrorCode::ItemLimitExceeded => 4000179i64,
            ApiErrorCode::MalformedPayload => 4000173i64,
            ApiErrorCode::MisalignedBillingCycle => 4000147i64,
            ApiErrorCode::MismatchedStorefront => 4000133i64,
            ApiErrorCode::MissingPricingConfigForStorefront => 4000134i64,
            ApiErrorCode::MissingUpdatedItemsWithPeriodChange => 4000140i64,
            ApiErrorCode::MoreItemsThanAllowed => 4000136i64,
            ApiErrorCode::MoreOffersThanAllowed => 4000137i64,
            ApiErrorCode::MultipleOperationsOnSingleSKU => 4000143i64,
            ApiErrorCode::MultiplePrices => 4000150i64,
            ApiErrorCode::NegativePrice => 4000086i64,
            ApiErrorCode::NegativeProratedPrice => 4000091i64,
            ApiErrorCode::NegativeRefundAmount => 4000154i64,
            ApiErrorCode::NullAdvancedCommerceData => 4000171i64,
            ApiErrorCode::NullCurrency => 4000098i64,
            ApiErrorCode::NullCurrentSKU => 4000169i64,
            ApiErrorCode::NullDescription => 4000107i64,
            ApiErrorCode::NullDescriptors => 4000103i64,
            ApiErrorCode::NullDisplayName => 4000106i64,
            ApiErrorCode::NullEffective => 4000111i64,
            ApiErrorCode::NullItem => 4000102i64,
            ApiErrorCode::NullItems => 4000101i64,
            ApiErrorCode::NullNewSKU => 4000112i64,
            ApiErrorCode::NullOfferPeriod => 4000092i64,
            ApiErrorCode::NullPeriodCount => 4000093i64,
            ApiErrorCode::NullPeriod => 4000104i64,
            ApiErrorCode::NullPrice => 4000109i64,
            ApiErrorCode::NullReason => 4000095i64,
            ApiErrorCode::NullRefundAmount => 4000153i64,
            ApiErrorCode::NullRefundReason => 4000156i64,
            ApiErrorCode::NullRefundRisking => 4000159i64,
            ApiErrorCode::NullRefundType => 4000157i64,
            ApiErrorCode::NullRequestInfo => 4000079i64,
            ApiErrorCode::NullRequestReferenceID => 4000080i64,
            ApiErrorCode::NullRetainBillingCycle => 4000110i64,
            ApiErrorCode::NullSKU => 4000105i64,
            ApiErrorCode::NullStorefront => 4000100i64,
            ApiErrorCode::NullTargetProductID => 4000166i64,
            ApiErrorCode::NullTaxCode => 4000099i64,
            ApiErrorCode::NullTransactionId => 4000085i64,
            ApiErrorCode::NullVersion => 4000083i64,
            ApiErrorCode::OfferPreventsItemMidCycleChange => 4000177i64,
            ApiErrorCode::OneItemNeededInModify => 4000063i64,
            ApiErrorCode::OperationNotAllowed => 4000135i64,
            ApiErrorCode::PartialSimulateRefundDecline => 4000184i64,
            ApiErrorCode::PendingChangesMismatch => 4000180i64,
            ApiErrorCode::PendingRefund => 4000181i64,
            ApiErrorCode::PeriodChangeEffectiveConflict => 4000142i64,
            ApiErrorCode::PeriodChangeImmediateWithEffectiveAtNextBillingCycle => 4000149i64,
            ApiErrorCode::PeriodCountNotPositive => 4000094i64,
            ApiErrorCode::PeriodResetWithRetainBillingCycle => 4000141i64,
            ApiErrorCode::PriceChangeCannotBeIssuedWhenAlreadyCommunicatedError => 4000205i64,
            ApiErrorCode::PriceChangeNotSupportedThroughModifyItems => 4000178i64,
            ApiErrorCode::ProductAlreadyExists => 4000114i64,
            ApiErrorCode::ProductNotEligible => 4030023i64,
            ApiErrorCode::ProductNotFound => 4040016i64,
            ApiErrorCode::ProductNotOwned => 4030013i64,
            ApiErrorCode::ProratedOnlyLatestTransaction => 4000182i64,
            ApiErrorCode::RateLimitExceeded => 4290000i64,
            ApiErrorCode::RefundAmountWithoutCustom => 4000155i64,
            ApiErrorCode::RemovalAllNotAllowed => 4000168i64,
            ApiErrorCode::RemoveItemNotFound => 4000145i64,
            ApiErrorCode::RemoveItemsWithoutAddOrChangeItems => 4000144i64,
            ApiErrorCode::RepeatedRequestReferenceId => 4000097i64,
            ApiErrorCode::RevokeOnInactiveSubscription => 4000186i64,
            ApiErrorCode::SimulateRefundDeclineOnlyInSandbox => 4000158i64,
            ApiErrorCode::SKULengthExceeded => 4000087i64,
            ApiErrorCode::StorefrontChange => 4030022i64,
            ApiErrorCode::SubscriptionAlreadyActive => 4030011i64,
            ApiErrorCode::SubscriptionAlreadyExists => 4030009i64,
            ApiErrorCode::SubscriptionAlreadyMigrated => 4000176i64,
            ApiErrorCode::SubscriptionDoesNotExist => 4030008i64,
            ApiErrorCode::SubscriptionNotEligible => 4030010i64,
            ApiErrorCode::TransactionIdNotFound => 4040010i64,
            ApiErrorCode::TransactionNotRefundable => 4030024i64,
            ApiErrorCode::TransactionCannotBeRefundedContactSupport => 4030025i64,
            ApiErrorCode::Unauthorized => 4010000i64,
            ApiErrorCode::UnexpectedVersion => 4000084i64,
            ApiErrorCode::Unknown => -1i64,
        }
    }

    /// The numeric error code the API uses for this variant.
    pub fn code(&self) -> (c: i64)
        ensures
            c == self.error_code(),
    {
        match self {
            ApiErrorCode::ACAPriceIncreaseIsNotCurrentlySupportedInIndiaError => 4000221,
            ApiErrorCode::InvalidProratedPriceForChangeItemWithEffectiveLaterError => 4000222,
            ApiErrorCode::FreeTrialOfferMustUsePeriodCountOfOneError => 4000223,
            ApiErrorCode::MigrationNotAllowedWhenPriceIncreaseCommunicatedError => 4030027,
            ApiErrorCode::AlreadyRefunded => 4030021,
            ApiErrorCode::AtLeastOneItem => 4000160,
            ApiErrorCode::AtLeastOneOfDisplayNameOrDescription => 4000165,
            ApiErrorCode::BillingCycleResetWithEffectiveLater => 4000148,
            ApiErrorCode::ChangeItemNotFound => 4000146,
            ApiErrorCode::DependentSKUsCannotBeChainedError => 4000193,
            ApiErrorCode::DependentSKUsCannotBeSharedError => 4000192,
            ApiErrorCode::DescriptionLengthExceeded => 4000088,
            ApiErrorCode::DisplayNameLengthExceeded => 4000089,
            ApiErrorCode::EmptyAddChangeItems => 4000139,
            ApiErrorCode::GeneralInternal => 5000000,
            ApiErrorCode::GeneralInternalRetryable => 5000001,
            ApiErrorCode::InactiveACASub => 4030015,
            ApiErrorCode::InsufficientFunds => 4030020,
            ApiErrorCode::InvalidAmount => 4000132,
            ApiErrorCode::InvalidAppAccountToken => 4000033,
            ApiErrorCode::InvalidChangeReason => 4000125,
            ApiErrorCode::InvalidConsistencyToken => 4000082,
            ApiErrorCode::InvalidCurrency => 4000053,
            ApiErrorCode::InvalidDescription => 4000119,
            ApiErrorCode::InvalidDisplayName => 4000118,
            ApiErrorCode::InvalidOfferPeriodCount => 4000129,
            ApiErrorCode::InvalidOfferPeriod => 4000128,
            ApiErrorCode::InvalidOfferPrice => 4000152,
            ApiErrorCode::InvalidOfferReason => 4000126,
            ApiErrorCode::InvalidOperation => 4000172,
            ApiErrorCode::InvalidPreviousSubscription => 4000113,
            ApiErrorCode::InvalidPreviousTransactionID => 4000096,
            ApiErrorCode::InvalidPriceForChangeItemInPriceIncreaseError => 4000214,
            ApiErrorCode::InvalidProductChanges => 4000115,
            ApiErrorCode::InvalidProduct => 4000121,
            ApiErrorCode::InvalidProratedPrice => 4000151,
            ApiErrorCode::InvalidRefundReason => 4000124,
            ApiErrorCode::InvalidRefundType => 4000123,
            ApiErrorCode::InvalidRenewalPeriod => 4000130,
            ApiErrorCode::InvalidRenewalPrice => 4000131,
            ApiErrorCode::InvalidRequestReferenceID => 4000081,
            ApiErrorCode::InvalidSalableDuration => 4000117,
            ApiErrorCode::InvalidSalable => 4000116,
            ApiErrorCode::InvalidSignature => 4000174,
            ApiErrorCode::InvalidSKU => 4000122,
            ApiErrorCode::InvalidSKUProvidedMustBeCurrentSKUSetToRenewError => 4000220,
            ApiErrorCode::InvalidStorefront => 4000028,
            ApiErrorCode::InvalidTargetProductID => 4000167,
            ApiErrorCode::InvalidTaxProductCode => 4000127,
            ApiErrorCode::InvalidTransactionId => 4000006,
            ApiErrorCode::ItemCannotBeSpecifiedMultipleTimesError => 4000194,
            ApiErrorCode::ItemLimitExceeded => 4000179,
            ApiErrorCode::MalformedPayload => 4000173,
            ApiErrorCode::MisalignedBillingCycle => 4000147,
            ApiErrorCode::MismatchedStorefront => 4000133,
            ApiErrorCode::MissingPricingConfigForStorefront => 4000134,
            ApiErrorCode::MissingUpdatedItemsWithPeriodChange => 4000140,
            ApiErrorCode::MoreItemsThanAllowed => 4000136,
            ApiErrorCode::MoreOffersThanAllowed => 4000137,
            ApiErrorCode::MultipleOperationsOnSingleSKU => 4000143,
            ApiErrorCode::MultiplePrices => 4000150,
            ApiErrorCode::NegativePrice => 4000086,
            ApiErrorCode::NegativeProratedPrice => 4000091,
            ApiErrorCode::NegativeRefundAmount => 4000154,
            ApiErrorCode::NullAdvancedCommerceData => 4000171,
            ApiErrorCode::NullCurrency => 4000098,
            ApiErrorCode::NullCurrentSKU => 4000169,
            ApiErrorCode::NullDescription => 4000107,
            ApiErrorCode::NullDescriptors => 4000103,
            ApiErrorCode::NullDisplayName => 4000106,
            ApiErrorCode::NullEffective => 4000111,
            ApiErrorCode::NullItem => 4000102,
            ApiErrorCode::NullItems => 4000101,
            ApiErrorCode::NullNewSKU => 4000112,
            ApiErrorCode::NullOfferPeriod => 4000092,
            ApiErrorCode::NullPeriodCount => 4000093,
            ApiErrorCode::NullPeriod => 4000104,
            ApiErrorCode::NullPrice => 4000109,
            ApiErrorCode::NullReason => 4000095,
            ApiErrorCode::NullRefundAmount => 4000153,
            ApiErrorCode::NullRefundReason => 4000156,
            ApiErrorCode::NullRefundRisking => 4000159,
            ApiErrorCode::NullRefundType => 4000157,
            ApiErrorCode::NullRequestInfo => 4000079,
            ApiErrorCode::NullRequestReferenceID => 4000080,
            ApiErrorCode::NullRetainBillingCycle => 4000110,
            ApiErrorCode::NullSKU => 4000105,
            ApiErrorCode::NullStorefront => 4000100,
            ApiErrorCode::NullTargetProductID => 4000166,
            ApiErrorCode::NullTaxCode => 4000099,
            ApiErrorCode::NullTransactionId => 4000085,
            ApiErrorCode::NullVersion => 4000083,
            ApiErrorCode::OfferPreventsItemMidCycleChange => 4000177,
            ApiErrorCode::OneItemNeededInModify => 4000063,
            ApiErrorCode::OperationNotAllowed => 4000135,
            ApiErrorCode::PartialSimulateRefundDecline => 4000184,
            ApiErrorCode::PendingChangesMismatch => 4000180,
            ApiErrorCode::PendingRefund => 4000181,
            ApiErrorCode::PeriodChangeEffectiveConflict => 4000142,
            ApiErrorCode::PeriodChangeImmediateWithEffectiveAtNextBillingCycle => 4000149,
            ApiErrorCode::PeriodCountNotPositive => 4000094,
            ApiErrorCode::PeriodResetWithRetainBillingCycle => 4000141,
            ApiErrorCode::PriceChangeCannotBeIssuedWhenAlreadyCommunicatedError => 4000205,
            ApiErrorCode::PriceChangeNotSupportedThroughModifyItems => 4000178,
            ApiErrorCode::ProductAlreadyExists => 4000114,
            ApiErrorCode::ProductNotEligible => 4030023,
            ApiErrorCode::ProductNotFound => 4040016,
            ApiErrorCode::ProductNotOwned => 4030013,
            ApiErrorCode::ProratedOnlyLatestTransaction => 4000182,
            ApiErrorCode::RateLimitExceeded => 4290000,
            ApiErrorCode::RefundAmountWithoutCustom => 4000155,
            ApiErrorCode::RemovalAllNotAllowed => 4000168,
            ApiErrorCode::RemoveItemNotFound => 4000145,
            ApiErrorCode::RemoveItemsWithoutAddOrChangeItems => 4000144,
            ApiErrorCode::RepeatedRequestReferenceId => 4000097,
            ApiErrorCode::RevokeOnInactiveSubscription => 4000186,
            ApiErrorCode::SimulateRefundDeclineOnlyInSandbox => 4000158,
            ApiErrorCode::SKULengthExceeded => 4000087,
            ApiErrorCode::StorefrontChange => 4030022,
            ApiErrorCode::SubscriptionAlreadyActive => 4030011,
            ApiErrorCode::SubscriptionAlreadyExists => 4030009,
            ApiErrorCode::SubscriptionAlreadyMigrated => 4000176,
            ApiErrorCode::SubscriptionDoesNotExist => 4030008,
            ApiErrorCode::SubscriptionNotEligible => 4030010,
            ApiErrorCode::TransactionIdNotFound => 4040010,
            ApiErrorCode::TransactionNotRefundable => 4030024,
            ApiErrorCode::TransactionCannotBeRefundedContactSupport => 4030025,
            ApiErrorCode::Unauthorized => 4010000,
            ApiErrorCode::UnexpectedVersion => 4000084,
            ApiErrorCode::Unknown => -1,
        }
    }

    /// The variant's name, as `Debug` writes it.
    pub open spec fn variant_name(self) -> Seq<char> {
        match self {
            ApiErrorCode::ACAPriceIncreaseIsNotCurrentlySupportedInIndiaError => "ACAPriceIncreaseIsNotCurrentlySupportedInIndiaError"@,
            ApiErrorCode::InvalidProratedPriceForChangeItemWithEffectiveLaterError => "InvalidProratedPriceForChangeItemWithEffectiveLaterError"@,
            ApiErrorCode::FreeTrialOfferMustUsePeriodCountOfOneError => "FreeTrialOfferMustUsePeriodCountOfOneError"@,
            ApiErrorCode::MigrationNotAllowedWhenPriceIncreaseCommunicatedError => "MigrationNotAllowedWhenPriceIncreaseCommunicatedError"@,
            ApiErrorCode::AlreadyRefunded => "AlreadyRefunded"@,
            ApiErrorCode::AtLeastOneItem => "AtLeastOneItem"@,
            ApiErrorCode::AtLeastOneOfDisplayNameOrDescription => "AtLeastOneOfDisplayNameOrDescription"@,
            ApiErrorCode::BillingCycleResetWithEffectiveLater => "BillingCycleResetWithEffectiveLater"@,
            ApiErrorCode::ChangeItemNotFound => "ChangeItemNotFound"@,
            ApiErrorCode::DependentSKUsCannotBeChainedError => "DependentSKUsCannotBeChainedError"@,
            ApiErrorCode::DependentSKUsCannotBeSharedError => "DependentSKUsCannotBeSharedError"@,
            ApiErrorCode::DescriptionLengthExceeded => "DescriptionLengthExceeded"@,
            ApiErrorCode::DisplayNameLengthExceeded => "DisplayNameLengthExceeded"@,
            ApiErrorCode::EmptyAddChangeItems => "EmptyAddChangeItems"@,
            ApiErrorCode::GeneralInternal => "GeneralInternal"@,
            ApiErrorCode::GeneralInternalRetryable => "GeneralInternalRetryable"@,
            ApiErrorCode::InactiveACASub => "InactiveACASub"@,
            ApiErrorCode::InsufficientFunds => "InsufficientFunds"@,
            ApiErrorCode::InvalidAmount => "InvalidAmount"@,
            ApiErrorCode::InvalidAppAccountToken => "InvalidAppAccountToken"@,
            ApiErrorCode::InvalidChangeReason => "InvalidChangeReason"@,
            ApiErrorCode::InvalidConsistencyToken => "InvalidConsistencyToken"@,
            ApiErrorCode::InvalidCurrency => "InvalidCurrency"@,
            ApiErrorCode::InvalidDescription => "InvalidDescription"@,
            ApiErrorCode::InvalidDisplayName => "InvalidDisplayName"@,
            ApiErrorCode::InvalidOfferPeriodCount => "InvalidOfferPeriodCount"@,
            ApiErrorCode::InvalidOfferPeriod => "InvalidOfferPeriod"@,
            ApiErrorCode::InvalidOfferPrice => "InvalidOfferPrice"@,
            ApiErrorCode::InvalidOfferReason => "InvalidOfferReason"@,
            ApiErrorCode::InvalidOperation => "InvalidOperation"@,
            ApiErrorCode::InvalidPreviousSubscription => "InvalidPreviousSubscription"@,
            ApiErrorCode::InvalidPreviousTransactionID => "InvalidPreviousTransactionID"@,
            ApiErrorCode::InvalidPriceForChangeItemInPriceIncreaseError => "InvalidPriceForChangeItemInPriceIncreaseError"@,
            ApiErrorCode::InvalidProductChanges => "InvalidProductChanges"@,
            ApiErrorCode::InvalidProduct => "InvalidProduct"@,
            ApiErrorCode::InvalidProratedPrice => "InvalidProratedPrice"@,
            ApiErrorCode::InvalidRefundReason => "InvalidRefundReason"@,
            ApiErrorCode::InvalidRefundType => "InvalidRefundType"@,
            ApiErrorCode::InvalidRenewalPeriod => "InvalidRenewalPeriod"@,
            ApiErrorCode::InvalidRenewalPrice => "InvalidRenewalPrice"@,
            ApiErrorCode::InvalidRequestReferenceID => "InvalidRequestReferenceID"@,
            ApiErrorCode::InvalidSalableDuration => "InvalidSalableDuration"@,
            ApiErrorCode::InvalidSalable => "InvalidSalable"@,
            ApiErrorCode::InvalidSignature => "InvalidSignature"@,
            ApiErrorCode::InvalidSKU => "InvalidSKU"@,
            ApiErrorCode::InvalidSKUProvidedMustBeCurrentSKUSetToRenewError => "InvalidSKUProvidedMustBeCurrentSKUSetToRenewError"@,
            ApiErrorCode::InvalidStorefront => "InvalidStorefront"@,
            ApiErrorCode::InvalidTargetProductID => "InvalidTargetProductID"@,
            ApiErrorCode::InvalidTaxProductCode => "InvalidTaxProductCode"@,
            ApiErrorCode::InvalidTransactionId => "InvalidTransactionId"@,
            ApiErrorCode::ItemCannotBeSpecifiedMultipleTimesError => "ItemCannotBeSpecifiedMultipleTimesError"@,
            ApiErrorCode::ItemLimitExceeded => "ItemLimitExceeded"@,
            ApiErrorCode::MalformedPayload => "MalformedPayload"@,
            ApiErrorCode::MisalignedBillingCycle => "MisalignedBillingCycle"@,
            ApiErrorCode::MismatchedStorefront => "MismatchedStorefront"@,
            ApiErrorCode::MissingPricingConfigForStorefront => "MissingPricingConfigForStorefront"@,
            ApiErrorCode::MissingUpdatedItemsWithPeriodChange => "MissingUpdatedItemsWithPeriodChange"@,
            ApiErrorCode::MoreItemsThanAllowed => "MoreItemsThanAllowed"@,
            ApiErrorCode::MoreOffersThanAllowed => "MoreOffersThanAllowed"@,
            ApiErrorCode::MultipleOperationsOnSingleSKU => "MultipleOperationsOnSingleSKU"@,
            ApiErrorCode::MultiplePrices => "MultiplePrices"@,
            ApiErrorCode::NegativePrice => "NegativePrice"@,
            ApiErrorCode::NegativeProratedPrice => "NegativeProratedPrice"@,
            ApiErrorCode::NegativeRefundAmount => "NegativeRefundAmount"@,
            ApiErrorCode::NullAdvancedCommerceData => "NullAdvancedCommerceData"@,
            ApiErrorCode::NullCurrency => "NullCurrency"@,
            ApiErrorCode::NullCurrentSKU => "NullCurrentSKU"@,
            ApiErrorCode::NullDescription => "NullDescription"@,
            ApiErrorCode::NullDescriptors => "NullDescriptors"@,
            ApiErrorCode::NullDisplayName => "NullDisplayName"@,
            ApiErrorCode::NullEffective => "NullEffective"@,
            ApiErrorCode::NullItem => "NullItem"@,
            ApiErrorCode::NullItems => "NullItems"@,
            ApiErrorCode::NullNewSKU => "NullNewSKU"@,
            ApiErrorCode::NullOfferPeriod => "NullOfferPeriod"@,
            ApiErrorCode::NullPeriodCount => "NullPeriodCount"@,
            ApiErrorCode::NullPeriod => "NullPeriod"@,
            ApiErrorCode::NullPrice => "NullPrice"@,
            ApiErrorCode::NullReason => "NullReason"@,
            ApiErrorCode::NullRefundAmount => "NullRefundAmount"@,
            ApiErrorCode::NullRefundReason => "NullRefundReason"@,
            ApiErrorCode::NullRefundRisking => "NullRefundRisking"@,
            ApiErrorCode::NullRefundType => "NullRefundType"@,
            ApiErrorCode::NullRequestInfo => "NullRequestInfo"@,
            ApiErrorCode::NullRequestReferenceID => "NullRequestReferenceID"@,
            ApiErrorCode::NullRetainBillingCycle => "NullRetainBillingCycle"@,
            ApiErrorCode::NullSKU => "NullSKU"@,
            ApiErrorCode::NullStorefront => "NullStorefront"@,
            ApiErrorCode::NullTargetProductID => "NullTargetProductID"@,
            ApiErrorCode::NullTaxCode => "NullTaxCode"@,
            ApiErrorCode::NullTransactionId => "NullTransactionId"@,
            ApiErrorCode::NullVersion => "NullVersion"@,
            ApiErrorCode::OfferPreventsItemMidCycleChange => "OfferPreventsItemMidCycleChange"@,
            ApiErrorCode::OneItemNeededInModify => "OneItemNeededInModify"@,
            ApiErrorCode::OperationNotAllowed => "OperationNotAllowed"@,
            ApiErrorCode::PartialSimulateRefundDecline => "PartialSimulateRefundDecline"@,
            ApiErrorCode::PendingChangesMismatch => "PendingChangesMismatch"@,
            ApiErrorCode::PendingRefund => "PendingRefund"@,
            ApiErrorCode::PeriodChangeEffectiveConflict => "PeriodChangeEffectiveConflict"@,
            ApiErrorCode::PeriodChangeImmediateWithEffectiveAtNextBillingCycle => "PeriodChangeImmediateWithEffectiveAtNextBillingCycle"@,
            ApiErrorCode::PeriodCountNotPositive => "PeriodCountNotPositive"@,
            ApiErrorCode::PeriodResetWithRetainBillingCycle => "PeriodResetWithRetainBillingCycle"@,
            ApiErrorCode::PriceChangeCannotBeIssuedWhenAlreadyCommunicatedError => "PriceChangeCannotBeIssuedWhenAlreadyCommunicatedError"@,
            ApiErrorCode::PriceChangeNotSupportedThroughModifyItems => "PriceChangeNotSupportedThroughModifyItems"@,
            ApiErrorCode::ProductAlreadyExists => "ProductAlreadyExists"@,
            ApiErrorCode::ProductNotEligible => "ProductNotEligible"@,
            ApiErrorCode::ProductNotFound => "ProductNotFound"@,
            ApiErrorCode::ProductNotOwned => "ProductNotOwned"@,
            ApiErrorCode::ProratedOnlyLatestTransaction => "ProratedOnlyLatestTransaction"@,
            ApiErrorCode::RateLimitExceeded => "RateLimitExceeded"@,
            ApiErrorCode::RefundAmountWithoutCustom => "RefundAmountWithoutCustom"@,
            ApiErrorCode::RemovalAllNotAllowed => "RemovalAllNotAllowed"@,
            ApiErrorCode::RemoveItemNotFound => "RemoveItemNotFound"@,
            ApiErrorCode::RemoveItemsWithoutAddOrChangeItems => "RemoveItemsWithoutAddOrChangeItems"@,
            ApiErrorCode::RepeatedRequestReferenceId => "RepeatedRequestReferenceId"@,
            ApiErrorCode::RevokeOnInactiveSubscription => "RevokeOnInactiveSubscription"@,
            ApiErrorCode::SimulateRefundDeclineOnlyInSandbox => "SimulateRefundDeclineOnlyInSandbox"@,
            ApiErrorCode::SKULengthExceeded => "SKULengthExceeded"@,
            ApiErrorCode::StorefrontChange => "StorefrontChange"@,
            ApiErrorCode::SubscriptionAlreadyActive => "SubscriptionAlreadyActive"@,
            ApiErrorCode::SubscriptionAlreadyExists => "SubscriptionAlreadyExists"@,
            ApiErrorCode::SubscriptionAlreadyMigrated => "SubscriptionAlreadyMigrated"@,
            ApiErrorCode::SubscriptionDoesNotExist => "SubscriptionDoesNotExist"@,
            ApiErrorCode::SubscriptionNotEligible => "SubscriptionNotEligible"@,
            ApiErrorCode::TransactionIdNotFound => "TransactionIdNotFound"@,
            ApiErrorCode::TransactionNotRefundable => "TransactionNotRefundable"@,
            ApiErrorCode::TransactionCannotBeRefundedContactSupport => "TransactionCannotBeRefundedContactSupport"@,
            ApiErrorCode::Unauthorized => "Unauthorized"@,
            ApiErrorCode::UnexpectedVersion => "UnexpectedVersion"@,
            ApiErrorCode::Unknown => "Unknown"@,
        }
    }

    /// The variant's name, as `Debug` writes it.
    pub fn name(&self) -> (s: &'static str)
        ensures
            s@ == self.variant_name(),
    {
        match self {
            ApiErrorCode::ACAPriceIncreaseIsNotCurrentlySupportedInIndiaError => "ACAPriceIncreaseIsNotCurrentlySupportedInIndiaError",
            ApiErrorCode::InvalidProratedPriceForChangeItemWithEffectiveLaterError => "InvalidProratedPriceForChangeItemWithEffectiveLaterError",
            ApiErrorCode::FreeTrialOfferMustUsePeriodCountOfOneError => "FreeTrialOfferMustUsePeriodCountOfOneError",
            ApiErrorCode::MigrationNotAllowedWhenPriceIncreaseCommunicatedError => "MigrationNotAllowedWhenPriceIncreaseCommunicatedError",
            ApiErrorCode::AlreadyRefunded => "AlreadyRefunded",
            ApiErrorCode::AtLeastOneItem => "AtLeastOneItem",
            ApiErrorCode::AtLeastOneOfDisplayNameOrDescription => "AtLeastOneOfDisplayNameOrDescription",
            ApiErrorCode::BillingCycleResetWithEffectiveLater => "BillingCycleResetWithEffectiveLater",
            ApiErrorCode::ChangeItemNotFound => "ChangeItemNotFound",
            ApiErrorCode::DependentSKUsCannotBeChainedError => "DependentSKUsCannotBeChainedError",
            ApiErrorCode::DependentSKUsCannotBeSharedError => "DependentSKUsCannotBeSharedError",
            ApiErrorCode::DescriptionLengthExceeded => "DescriptionLengthExceeded",
            ApiErrorCode::DisplayNameLengthExceeded => "DisplayNameLengthExceeded",
            ApiErrorCode::EmptyAddChangeItems => "EmptyAddChangeItems",
            ApiErrorCode::GeneralInternal => "GeneralInternal",
            ApiErrorCode::GeneralInternalRetryable => "GeneralInternalRetryable",
            ApiErrorCode::InactiveACASub => "InactiveACASub",
            ApiErrorCode::InsufficientFunds => "InsufficientFunds",
            ApiErrorCode::InvalidAmount => "InvalidAmount",
            ApiErrorCode::InvalidAppAccountToken => "InvalidAppAccountToken",
            ApiErrorCode::InvalidChangeReason => "InvalidChangeReason",
            ApiErrorCode::InvalidConsistencyToken => "InvalidConsistencyToken",
            ApiErrorCode::InvalidCurrency => "InvalidCurrency",
            ApiErrorCode::InvalidDescription => "InvalidDescription",
            ApiErrorCode::InvalidDisplayName => "InvalidDisplayName",
            ApiErrorCode::InvalidOfferPeriodCount => "InvalidOfferPeriodCount",
            ApiErrorCode::InvalidOfferPeriod => "InvalidOfferPeriod",
            ApiErrorCode::InvalidOfferPrice => "InvalidOfferPrice",
            ApiErrorCode::InvalidOfferReason => "InvalidOfferReason",
            ApiErrorCode::InvalidOperation => "InvalidOperation",
            ApiErrorCode::InvalidPreviousSubscription => "InvalidPreviousSubscription",
            ApiErrorCode::InvalidPreviousTransactionID => "InvalidPreviousTransactionID",
            ApiErrorCode::InvalidPriceForChangeItemInPriceIncreaseError => "InvalidPriceForChangeItemInPriceIncreaseError",
            ApiErrorCode::InvalidProductChanges => "InvalidProductChanges",
            ApiErrorCode::InvalidProduct => "InvalidProduct",
            ApiErrorCode::InvalidProratedPrice => "InvalidProratedPrice",
            ApiErrorCode::InvalidRefundReason => "InvalidRefundReason",
            ApiErrorCode::InvalidRefundType => "InvalidRefundType",
            ApiErrorCode::InvalidRenewalPeriod => "InvalidRenewalPeriod",
            ApiErrorCode::InvalidRenewalPrice => "InvalidRenewalPrice",
            ApiErrorCode::InvalidRequestReferenceID => "InvalidRequestReferenceID",
            ApiErrorCode::InvalidSalableDuration => "InvalidSalableDuration",
            ApiErrorCode::InvalidSalable => "InvalidSalable",
            ApiErrorCode::InvalidSignature => "InvalidSignature",
            ApiErrorCode::InvalidSKU => "InvalidSKU",
            ApiErrorCode::InvalidSKUProvidedMustBeCurrentSKUSetToRenewError => "InvalidSKUProvidedMustBeCurrentSKUSetToRenewError",
            ApiErrorCode::InvalidStorefront => "InvalidStorefront",
            ApiErrorCode::InvalidTargetProductID => "InvalidTargetProductID",
            ApiErrorCode::InvalidTaxProductCode => "InvalidTaxProductCode",
            ApiErrorCode::InvalidTransactionId => "InvalidTransactionId",
            ApiErrorCode::ItemCannotBeSpecifiedMultipleTimesError => "ItemCannotBeSpecifiedMultipleTimesError",
            ApiErrorCode::ItemLimitExceeded => "ItemLimitExceeded",
            ApiErrorCode::MalformedPayload => "MalformedPayload",
            ApiErrorCode::MisalignedBillingCycle => "MisalignedBillingCycle",
            ApiErrorCode::MismatchedStorefront => "MismatchedStorefront",
            ApiErrorCode::MissingPricingConfigForStorefront => "MissingPricingConfigForStorefront",
            ApiErrorCode::MissingUpdatedItemsWithPeriodChange => "MissingUpdatedItemsWithPeriodChange",
            ApiErrorCode::MoreItemsThanAllowed => "MoreItemsThanAllowed",
            ApiErrorCode::MoreOffersThanAllowed => "MoreOffersThanAllowed",
            ApiErrorCode::MultipleOperationsOnSingleSKU => "MultipleOperationsOnSingleSKU",
            ApiErrorCode::MultiplePrices => "MultiplePrices",
            ApiErrorCode::NegativePrice => "NegativePrice",
            ApiErrorCode::NegativeProratedPrice => "NegativeProratedPrice",
            ApiErrorCode::NegativeRefundAmount => "NegativeRefundAmount",
            ApiErrorCode::NullAdvancedCommerceData => "NullAdvancedCommerceData",
            ApiErrorCode::NullCurrency => "NullCurrency",
            ApiErrorCode::NullCurrentSKU => "NullCurrentSKU",
            ApiErrorCode::NullDescription => "NullDescription",
            ApiErrorCode::NullDescriptors => "NullDescriptors",
            ApiErrorCode::NullDisplayName => "NullDisplayName",
            ApiErrorCode::NullEffective => "NullEffective",
            ApiErrorCode::NullItem => "NullItem",
            ApiErrorCode::NullItems => "NullItems",
            ApiErrorCode::NullNewSKU => "NullNewSKU",
            ApiErrorCode::NullOfferPeriod => "NullOfferPeriod",
            ApiErrorCode::NullPeriodCount => "NullPeriodCount",
            ApiErrorCode::NullPeriod => "NullPeriod",
            ApiErrorCode::NullPrice => "NullPrice",
            ApiErrorCode::NullReason => "NullReason",
            ApiErrorCode::NullRefundAmount => "NullRefundAmount",
            ApiErrorCode::NullRefundReason => "NullRefundReason",
            ApiErrorCode::NullRefundRisking => "NullRefundRisking",
            ApiErrorCode::NullRefundType => "NullRefundType",
            ApiErrorCode::NullRequestInfo => "NullRequestInfo",
            ApiErrorCode::NullRequestReferenceID => "NullRequestReferenceID",
            ApiErrorCode::NullRetainBillingCycle => "NullRetainBillingCycle",
            ApiErrorCode::NullSKU => "NullSKU",
            ApiErrorCode::NullStorefront => "NullStorefront",
            ApiErrorCode::NullTargetProductID => "NullTargetProductID",
            ApiErrorCode::NullTaxCode => "NullTaxCode",
            ApiErrorCode::NullTransactionId => "NullTransactionId",
            ApiErrorCode::NullVersion => "NullVersion",
            ApiErrorCode::OfferPreventsItemMidCycleChange => "OfferPreventsItemMidCycleChange",
            ApiErrorCode::OneItemNeededInModify => "OneItemNeededInModify",
            ApiErrorCode::OperationNotAllowed => "OperationNotAllowed",
            ApiErrorCode::PartialSimulateRefundDecline => "PartialSimulateRefundDecline",
            ApiErrorCode::PendingChangesMismatch => "PendingChangesMismatch",
            ApiErrorCode::PendingRefund => "PendingRefund",
            ApiErrorCode::PeriodChangeEffectiveConflict => "PeriodChangeEffectiveConflict",
            ApiErrorCode::PeriodChangeImmediateWithEffectiveAtNextBillingCycle => "PeriodChangeImmediateWithEffectiveAtNextBillingCycle",
            ApiErrorCode::PeriodCountNotPositive => "PeriodCountNotPositive",
            ApiErrorCode::PeriodResetWithRetainBillingCycle => "PeriodResetWithRetainBillingCycle",
            ApiErrorCode::PriceChangeCannotBeIssuedWhenAlreadyCommunicatedError => "PriceChangeCannotBeIssuedWhenAlreadyCommunicatedError",
            ApiErrorCode::PriceChangeNotSupportedThroughModifyItems => "PriceChangeNotSupportedThroughModifyItems",
            ApiErrorCode::ProductAlreadyExists => "ProductAlreadyExists",
            ApiErrorCode::ProductNotEligible => "ProductNotEligible",
            ApiErrorCode::ProductNotFound => "ProductNotFound",
            ApiErrorCode::ProductNotOwned => "ProductNotOwned",
            ApiErrorCode::ProratedOnlyLatestTransaction => "ProratedOnlyLatestTransaction",
            ApiErrorCode::RateLimitExceeded => "RateLimitExceeded",
            ApiErrorCode::RefundAmountWithoutCustom => "RefundAmountWithoutCustom",
            ApiErrorCode::RemovalAllNotAllowed => "RemovalAllNotAllowed",
            ApiErrorCode::RemoveItemNotFound => "RemoveItemNotFound",
            ApiErrorCode::RemoveItemsWithoutAddOrChangeItems => "RemoveItemsWithoutAddOrChangeItems",
            ApiErrorCode::RepeatedRequestReferenceId => "RepeatedRequestReferenceId",
            ApiErrorCode::RevokeOnInactiveSubscription => "RevokeOnInactiveSubscription",
            ApiErrorCode::SimulateRefundDeclineOnlyInSandbox => "SimulateRefundDeclineOnlyInSandbox",
            ApiErrorCode::SKULengthExceeded => "SKULengthExceeded",
            ApiErrorCode::StorefrontChange => "StorefrontChange",
            ApiErrorCode::SubscriptionAlreadyActive => "SubscriptionAlreadyActive",
            ApiErrorCode::SubscriptionAlreadyExists => "SubscriptionAlreadyExists",
            ApiErrorCode::SubscriptionAlreadyMigrated => "SubscriptionAlreadyMigrated",
            ApiErrorCode::SubscriptionDoesNotExist => "SubscriptionDoesNotExist",
            ApiErrorCode::SubscriptionNotEligible => "SubscriptionNotEligible",
            ApiErrorCode::TransactionIdNotFound => "TransactionIdNotFound",
            ApiErrorCode::TransactionNotRefundable => "TransactionNotRefundable",
            ApiErrorCode::TransactionCannotBeRefundedContactSupport => "TransactionCannotBeRefundedContactSupport",
            ApiErrorCode::Unauthorized => "Unauthorized",
            ApiErrorCode::UnexpectedVersion => "UnexpectedVersion",
            ApiErrorCode::Unknown => "Unknown",
        }
    }

    /// The variant a raw error code stands for, `Unknown` for codes the catalogue does not list.
    pub open spec fn variant_of_code(code: i64) -> Self {
        match code {
            4000221 => ApiErrorCode::ACAPriceIncreaseIsNotCurrentlySupportedInIndiaError,
            4000222 => ApiErrorCode::InvalidProratedPriceForChangeItemWithEffectiveLaterError,
            4000223 => ApiErrorCode::FreeTrialOfferMustUsePeriodCountOfOneError,
            4030027 => ApiErrorCode::MigrationNotAllowedWhenPriceIncreaseCommunicatedError,
            4030021 => ApiErrorCode::AlreadyRefunded,
            4000160 => ApiErrorCode::AtLeastOneItem,
            4000165 => ApiErrorCode::AtLeastOneOfDisplayNameOrDescription,
            4000148 => ApiErrorCode::BillingCycleResetWithEffectiveLater,
            4000146 => ApiErrorCode::ChangeItemNotFound,
            4000193 => ApiErrorCode::DependentSKUsCannotBeChainedError,
            4000192 => ApiErrorCode::DependentSKUsCannotBeSharedError,
            4000088 => ApiErrorCode::DescriptionLengthExceeded,
            4000089 => ApiErrorCode::DisplayNameLengthExceeded,
            4000139 => ApiErrorCode::EmptyAddChangeItems,
            5000000 => ApiErrorCode::GeneralInternal,
            5000001 => ApiErrorCode::GeneralInternalRetryable,
            4030015 => ApiErrorCode::InactiveACASub,
            4030020 => ApiErrorCode::InsufficientFunds,
            4000132 => ApiErrorCode::InvalidAmount,
            4000033 => ApiErrorCode::InvalidAppAccountToken,
            4000125 => ApiErrorCode::InvalidChangeReason,
            4000082 => ApiErrorCode::InvalidConsistencyToken,
            4000053 => ApiErrorCode::InvalidCurrency,
            4000119 => ApiErrorCode::InvalidDescription,
            4000118 => ApiErrorCode::InvalidDisplayName,
            4000129 => ApiErrorCode::InvalidOfferPeriodCount,
            4000128 => ApiErrorCode::InvalidOfferPeriod,
            4000152 => ApiErrorCode::InvalidOfferPrice,
            4000126 => ApiErrorCode::InvalidOfferReason,
            4000172 => ApiErrorCode::InvalidOperation,
            4000113 => ApiErrorCode::InvalidPreviousSubscription,
            4000096 => ApiErrorCode::InvalidPreviousTransactionID,
            4000214 => ApiErrorCode::InvalidPriceForChangeItemInPriceIncreaseError,
            4000115 => ApiErrorCode::InvalidProductChanges,
            4000121 => ApiErrorCode::InvalidProduct,
            4000151 => ApiErrorCode::InvalidProratedPrice,
            4000124 => ApiErrorCode::InvalidRefundReason,
            4000123 => ApiErrorCode::InvalidRefundType,
            4000130 => ApiErrorCode::InvalidRenewalPeriod,
            4000131 => ApiErrorCode::InvalidRenewalPrice,
            4000081 => ApiErrorCode::InvalidRequestReferenceID,
            4000117 => ApiErrorCode::InvalidSalableDuration,
            4000116 => ApiErrorCode::InvalidSalable,
            4000174 => ApiErrorCode::InvalidSignature,
            4000122 => ApiErrorCode::InvalidSKU,
            4000220 => ApiErrorCode::InvalidSKUProvidedMustBeCurrentSKUSetToRenewError,
            4000028 => ApiErrorCode::InvalidStorefront,
            4000167 => ApiErrorCode::InvalidTargetProductID,
            4000127 => ApiErrorCode::InvalidTaxProductCode,
            4000006 => ApiErrorCode::InvalidTransactionId,
            4000194 => ApiErrorCode::ItemCannotBeSpecifiedMultipleTimesError,
            4000179 => ApiErrorCode::ItemLimitExceeded,
            4000173 => ApiErrorCode::MalformedPayload,
            4000147 => ApiErrorCode::MisalignedBillingCycle,
            4000133 => ApiErrorCode::MismatchedStorefront,
            4000134 => ApiErrorCode::MissingPricingConfigForStorefront,
            4000140 => ApiErrorCode::MissingUpdatedItemsWithPeriodChange,
            4000136 => ApiErrorCode::MoreItemsThanAllowed,
            4000137 => ApiErrorCode::MoreOffersThanAllowed,
            4000143 => ApiErrorCode::MultipleOperationsOnSingleSKU,
            4000150 => ApiErrorCode::MultiplePrices,
            4000086 => ApiErrorCode::NegativePrice,
            4000091 => ApiErrorCode::NegativeProratedPrice,
            4000154 => ApiErrorCode::NegativeRefundAmount,
            4000171 => ApiErrorCode::NullAdvancedCommerceData,
            4000098 => ApiErrorCode::NullCurrency,
            4000169 => ApiErrorCode::NullCurrentSKU,
            4000107 => ApiErrorCode::NullDescription,
            4000103 => ApiErrorCode::NullDescriptors,
            4000106 => ApiErrorCode::NullDisplayName,
            4000111 => ApiErrorCode::NullEffective,
            4000102 => ApiErrorCode::NullItem,
            4000101 => ApiErrorCode::NullItems,
            4000112 => ApiErrorCode::NullNewSKU,
            4000092 => ApiErrorCode::NullOfferPeriod,
            4000093 => ApiErrorCode::NullPeriodCount,
            4000104 => ApiErrorCode::NullPeriod,
            4000109 => ApiErrorCode::NullPrice,
            4000095 => ApiErrorCode::NullReason,
            4000153 => ApiErrorCode::NullRefundAmount,
            4000156 => ApiErrorCode::NullRefundReason,
            4000159 => ApiErrorCode::NullRefundRisking,
            4000157 => ApiErrorCode::NullRefundType,
            4000079 => ApiErrorCode::NullRequestInfo,
            4000080 => ApiErrorCode::NullRequestReferenceID,
            4000110 => ApiErrorCode::NullRetainBillingCycle,
            4000105 => ApiErrorCode::NullSKU,
            4000100 => ApiErrorCode::NullStorefront,
            4000166 => ApiErrorCode::NullTargetProductID,
            4000099 => ApiErrorCode::NullTaxCode,
            4000085 => ApiErrorCode::NullTransactionId,
            4000083 => ApiErrorCode::NullVersion,
            4000177 => ApiErrorCode::OfferPreventsItemMidCycleChange,
            4000063 => ApiErrorCode::OneItemNeededInModify,
            4000135 => ApiErrorCode::OperationNotAllowed,
            4000184 => ApiErrorCode::PartialSimulateRefundDecline,
            4000180 => ApiErrorCode::PendingChangesMismatch,
            4000181 => ApiErrorCode::PendingRefund,
            4000142 => ApiErrorCode::PeriodChangeEffectiveConflict,
            4000149 => ApiErrorCode::PeriodChangeImmediateWithEffectiveAtNextBillingCycle,
            4000094 => ApiErrorCode::PeriodCountNotPositive,
            4000141 => ApiErrorCode::PeriodResetWithRetainBillingCycle,
            4000205 => ApiErrorCode::PriceChangeCannotBeIssuedWhenAlreadyCommunicatedError,
            4000178 => ApiErrorCode::PriceChangeNotSupportedThroughModifyItems,
            4000114 => ApiErrorCode::ProductAlreadyExists,
            4030023 => ApiErrorCode::ProductNotEligible,
            4040016 => ApiErrorCode::ProductNotFound,
            4030013 => ApiErrorCode::ProductNotOwned,
            4000182 => ApiErrorCode::ProratedOnlyLatestTransaction,
            4290000 => ApiErrorCode::RateLimitExceeded,
            4000155 => ApiErrorCode::RefundAmountWithoutCustom,
            4000168 => ApiErrorCode::RemovalAllNotAllowed,
            4000145 => ApiErrorCode::RemoveItemNotFound,
            4000144 => ApiErrorCode::RemoveItemsWithoutAddOrChangeItems,
            4000097 => ApiErrorCode::RepeatedRequestReferenceId,
            4000186 => ApiErrorCode::RevokeOnInactiveSubscription,
            4000158 => ApiErrorCode::SimulateRefundDeclineOnlyInSandbox,
            4000087 => ApiErrorCode::SKULengthExceeded,
            4030022 => ApiErrorCode::StorefrontChange,
            4030011 => ApiErrorCode::SubscriptionAlreadyActive,
            4030009 => ApiErrorCode::SubscriptionAlreadyExists,
            4000176 => ApiErrorCode::SubscriptionAlreadyMigrated,
            4030008 => ApiErrorCode::SubscriptionDoesNotExist,
            4030010 => ApiErrorCode::SubscriptionNotEligible,
            4040010 => ApiErrorCode::TransactionIdNotFound,
            4030024 => ApiErrorCode::TransactionNotRefundable,
            4030025 => ApiErrorCode::TransactionCannotBeRefundedContactSupport,
            4010000 => ApiErrorCode::Unauthorized,
            4000084 => ApiErrorCode::UnexpectedVersion,
            _ => ApiErrorCode::Unknown,
        }
    }

    /// Maps a raw error code returned by the API into a known
    /// variant, falling back to `Unknown`.
    pub fn from_code(code: i64) -> (e: Self)
        ensures
            e == Self::variant_of_code(code),
    {
        match code {
            4000221 => Self::ACAPriceIncreaseIsNotCurrentlySupportedInIndiaError,
            4000222 => Self::InvalidProratedPriceForChangeItemWithEffectiveLaterError,
            4000223 => Self::FreeTrialOfferMustUsePeriodCountOfOneError,
            4030027 => Self::MigrationNotAllowedWhenPriceIncreaseCommunicatedError,
            4030021 => Self::AlreadyRefunded,
            4000160 => Self::AtLeastOneItem,
            4000165 => Self::AtLeastOneOfDisplayNameOrDescription,
            4000148 => Self::BillingCycleResetWithEffectiveLater,
            4000146 => Self::ChangeItemNotFound,
            4000193 => Self::DependentSKUsCannotBeChainedError,
            4000192 => Self::DependentSKUsCannotBeSharedError,
            4000088 => Self::DescriptionLengthExceeded,
            4000089 => Self::DisplayNameLengthExceeded,
            4000139 => Self::EmptyAddChangeItems,
            5000000 => Self::GeneralInternal,
            5000001 => Self::GeneralInternalRetryable,
            4030015 => Self::InactiveACASub,
            4030020 => Self::InsufficientFunds,
            4000132 => Self::InvalidAmount,
            4000033 => Self::InvalidAppAccountToken,
            4000125 => Self::InvalidChangeReason,
            4000082 => Self::InvalidConsistencyToken,
            4000053 => Self::InvalidCurrency,
            4000119 => Self::InvalidDescription,
            4000118 => Self::InvalidDisplayName,
            4000129 => Self::InvalidOfferPeriodCount,
            4000128 => Self::InvalidOfferPeriod,
            4000152 => Self::InvalidOfferPrice,
            4000126 => Self::InvalidOfferReason,
            4000172 => Self::InvalidOperation,
            4000113 => Self::InvalidPreviousSubscription,
            4000096 => Self::InvalidPreviousTransactionID,
            4000214 => Self::InvalidPriceForChangeItemInPriceIncreaseError,
            4000115 => Self::InvalidProductChanges,
            4000121 => Self::InvalidProduct,
            4000151 => Self::InvalidProratedPrice,
            4000124 => Self::InvalidRefundReason,
            4000123 => Self::InvalidRefundType,
            4000130 => Self::InvalidRenewalPeriod,
            4000131 => Self::InvalidRenewalPrice,
            4000081 => Self::InvalidRequestReferenceID,
            4000117 => Self::InvalidSalableDuration,
            4000116 => Self::InvalidSalable,
            4000174 => Self::InvalidSignature,
            4000122 => Self::InvalidSKU,
            4000220 => Self::InvalidSKUProvidedMustBeCurrentSKUSetToRenewError,
            4000028 => Self::InvalidStorefront,
            4000167 => Self::InvalidTargetProductID,
            4000127 => Self::InvalidTaxProductCode,
            4000006 => Self::InvalidTransactionId,
            4000194 => Self::ItemCannotBeSpecifiedMultipleTimesError,
            4000179 => Self::ItemLimitExceeded,
            4000173 => Self::MalformedPayload,
            4000147 => Self::MisalignedBillingCycle,
            4000133 => Self::MismatchedStorefront,
            4000134 => Self::MissingPricingConfigForStorefront,
            4000140 => Self::MissingUpdatedItemsWithPeriodChange,
            4000136 => Self::MoreItemsThanAllowed,
            4000137 => Self::MoreOffersThanAllowed,
            4000143 => Self::MultipleOperationsOnSingleSKU,
            4000150 => Self::MultiplePrices,
            4000086 => Self::NegativePrice,
            4000091 => Self::NegativeProratedPrice,
            4000154 => Self::NegativeRefundAmount,
            4000171 => Self::NullAdvancedCommerceData,
            4000098 => Self::NullCurrency,
            4000169 => Self::NullCurrentSKU,
            4000107 => Self::NullDescription,
            4000103 => Self::NullDescriptors,
            4000106 => Self::NullDisplayName,
            4000111 => Self::NullEffective,
            4000102 => Self::NullItem,
            4000101 => Self::NullItems,
            4000112 => Self::NullNewSKU,
            4000092 => Self::NullOfferPeriod,
            4000093 => Self::NullPeriodCount,
            4000104 => Self::NullPeriod,
            4000109 => Self::NullPrice,
            4000095 => Self::NullReason,
            4000153 => Self::NullRefundAmount,
            4000156 => Self::NullRefundReason,
            4000159 => Self::NullRefundRisking,
            4000157 => Self::NullRefundType,
            4000079 => Self::NullRequestInfo,
            4000080 => Self::NullRequestReferenceID,
            4000110 => Self::NullRetainBillingCycle,
            4000105 => Self::NullSKU,
            4000100 => Self::NullStorefront,
            4000166 => Self::NullTargetProductID,
            4000099 => Self::NullTaxCode,
            4000085 => Self::NullTransactionId,
            4000083 => Self::NullVersion,
            4000177 => Self::OfferPreventsItemMidCycleChange,
            4000063 => Self::OneItemNeededInModify,
            4000135 => Self::OperationNotAllowed,
            4000184 => Self::PartialSimulateRefundDecline,
            4000180 => Self::PendingChangesMismatch,
            4000181 => Self::PendingRefund,
            4000142 => Self::PeriodChangeEffectiveConflict,
            4000149 => Self::PeriodChangeImmediateWithEffectiveAtNextBillingCycle,
            4000094 => Self::PeriodCountNotPositive,
            4000141 => Self::PeriodResetWithRetainBillingCycle,
            4000205 => Self::PriceChangeCannotBeIssuedWhenAlreadyCommunicatedError,
            4000178 => Self::PriceChangeNotSupportedThroughModifyItems,
            4000114 => Self::ProductAlreadyExists,
            4030023 => Self::ProductNotEligible,
            4040016 => Self::ProductNotFound,
            4030013 => Self::ProductNotOwned,
            4000182 => Self::ProratedOnlyLatestTransaction,
            4290000 => Self::RateLimitExceeded,
            4000155 => Self::RefundAmountWithoutCustom,
            4000168 => Self::RemovalAllNotAllowed,
            4000145 => Self::RemoveItemNotFound,
            4000144 => Self::RemoveItemsWithoutAddOrChangeItems,
            4000097 => Self::RepeatedRequestReferenceId,
            4000186 => Self::RevokeOnInactiveSubscription,
            4000158 => Self::SimulateRefundDeclineOnlyInSandbox,
            4000087 => Self::SKULengthExceeded,
            4030022 => Self::StorefrontChange,
            4030011 => Self::SubscriptionAlreadyActive,
            4030009 => Self::SubscriptionAlreadyExists,
            4000176 => Self::SubscriptionAlreadyMigrated,
            4030008 => Self::SubscriptionDoesNotExist,
            4030010 => Self::SubscriptionNotEligible,
            4040010 => Self::TransactionIdNotFound,
            4030024 => Self::TransactionNotRefundable,
            4030025 => Self::TransactionCannotBeRefundedContactSupport,
            4010000 => Self::Unauthorized,
            4000084 => Self::UnexpectedVersion,
            _ => Self::Unknown,
        }
    }
}

/// Every variant is recovered from its own code.
pub proof fn lemma_apierrorcode_from_code_of_code(e: ApiErrorCode)
    ensures
        ApiErrorCode::variant_of_code(e.error_code()) == e,
{
}

/// A code that names a known variant is that variant's code.
pub proof fn lemma_apierrorcode_code_of_known_variant(code: i64)
    ensures
        ApiErrorCode::variant_of_code(code) != ApiErrorCode::Unknown ==> ApiErrorCode::variant_of_code(code).error_code() == code,
{
}


/// The Advanced Commerce API client: its settings, and the call each endpoint makes.
pub struct AdvancedCommerceApiClient {
    inner: ApiClient,
}

impl AdvancedCommerceApiClient {
    /// The client's settings.
    pub closed spec fn settings(&self) -> ApiClient {
        self.inner
    }

    /// Creates a client; the Xcode environment is refused.
    pub fn new(signing_key: Vec<u8>, key_id: &str, issuer_id: &str, bundle_id: &str, environment: Environment) -> (res:
        Result<Self, ConfigurationError>)
        ensures
            match environment_base_url(environment) {
                None => res matches Err(ConfigurationError::InvalidEnvironment(m)) && m@ == xcode_refusal(),
                Some(url) => res matches Ok(c) && c.settings().base_url_view() == url
                    && c.settings().signing_key_view() == signing_key@ && c.settings().key_id_view() == key_id@
                    && c.settings().issuer_id_view() == issuer_id@ && c.settings().bundle_id_view() == bundle_id@,
            },
    {
        let inner = ApiClient::new(signing_key, key_id, issuer_id, bundle_id, environment)?;
        Ok(AdvancedCommerceApiClient { inner })
    }

    /// The client's settings, which build and authorise each call.
    pub fn api_client(&self) -> (c: &ApiClient)
        ensures
            *c == self.settings(),
    {
        &self.inner
    }

    /// The call that turns off automatic renewal of a subscription; `body` is the JSON request.
    pub fn cancel_subscription(&self, transaction_id: &str, body: Vec<u8>) -> (r: ApiRequest)
        ensures
            r@ == (HttpMethod::Post, "/advancedCommerce/v1/subscription/cancel/"@ + transaction_id@, no_query(), with_json(body@), true),
    {
        plan(HttpMethod::Post, path_with("/advancedCommerce/v1/subscription/cancel/", transaction_id), empty_query(), json_body(body), true)
    }

    /// The call that changes the SKU, display name and description of a subscription; `body` is the JSON request.
    pub fn change_subscription_metadata(&self, transaction_id: &str, body: Vec<u8>) -> (r: ApiRequest)
        ensures
            r@ == (HttpMethod::Post, "/advancedCommerce/v1/subscription/changeMetadata/"@ + transaction_id@, no_query(), with_json(body@), true),
    {
        plan(HttpMethod::Post, path_with("/advancedCommerce/v1/subscription/changeMetadata/", transaction_id), empty_query(), json_body(body), true)
    }

    /// The call that changes the price of a subscription at its next renewal; `body` is the JSON request.
    pub fn change_subscription_price(&self, transaction_id: &str, body: Vec<u8>) -> (r: ApiRequest)
        ensures
            r@ == (HttpMethod::Post, "/advancedCommerce/v1/subscription/changePrice/"@ + transaction_id@, no_query(), with_json(body@), true),
    {
        plan(HttpMethod::Post, path_with("/advancedCommerce/v1/subscription/changePrice/", transaction_id), empty_query(), json_body(body), true)
    }

    /// The call that migrates an In-App Purchase subscription to the Advanced Commerce API; `body` is the JSON request.
    pub fn migrate_subscription(&self, transaction_id: &str, body: Vec<u8>) -> (r: ApiRequest)
        ensures
            r@ == (HttpMethod::Post, "/advancedCommerce/v1/subscription/migrate/"@ + transaction_id@, no_query(), with_json(body@), true),
    {
        plan(HttpMethod::Post, path_with("/advancedCommerce/v1/subscription/migrate/", transaction_id), empty_query(), json_body(body), true)
    }

    /// The call that requests a refund of a transaction; `body` is the JSON request.
    pub fn request_transaction_refund(&self, transaction_id: &str, body: Vec<u8>) -> (r: ApiRequest)
        ensures
            r@ == (HttpMethod::Post, "/advancedCommerce/v1/transaction/requestRefund/"@ + transaction_id@, no_query(), with_json(body@), true),
    {
        plan(HttpMethod::Post, path_with("/advancedCommerce/v1/transaction/requestRefund/", transaction_id), empty_query(), json_body(body), true)
    }

    /// The call that cancels a subscription at once and requests a refund; `body` is the JSON request.
    pub fn revoke_subscription(&self, transaction_id: &str, body: Vec<u8>) -> (r: ApiRequest)
        ensures
            r@ == (HttpMethod::Post, "/advancedCommerce/v1/subscription/revoke/"@ + transaction_id@, no_query(), with_json(body@), true),
    {
        plan(HttpMethod::Post, path_with("/advancedCommerce/v1/subscription/revoke/", transaction_id), empty_query(), json_body(body), true)
    }

}

} // verus!
