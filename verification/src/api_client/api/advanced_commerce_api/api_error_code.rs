//! The Advanced Commerce API error catalogue, with each error's message.
use vstd::prelude::*;

verus! {

/// Error codes of the Advanced Commerce API.
#[derive(Debug, Clone, Copy, PartialEq, Eq, Structural)]
pub enum APIErrorCode {
    /// The transaction was already refunded.
    /// [Documentation](https://developer.apple.com/documentation/advancedcommerceapi/alreadyrefunded)
    AlreadyRefunded,

    /// When included, provide at least one item in items.
    /// [Documentation](https://developer.apple.com/documentation/advancedcommerceapi/atleastoneitem)
    AtLeastOneItem,

    /// Provide either the displayName or a description.
    /// [Documentation](https://developer.apple.com/documentation/advancedcommerceapi/atleastoneofdisplaynameordescription)
    AtLeastOneOfDisplayNameOrDescription,

    /// Bill cycle reset with effective later.
    /// [Documentation](https://developer.apple.com/documentation/advancedcommerceapi/billingcycleresetwitheffectivelater)
    BillingCycleResetWithEffectiveLater,

    /// The targeted item in changeItems wasn't found.
    /// [Documentation](https://developer.apple.com/documentation/advancedcommerceapi/changeitemnotfound)
    ChangeItemNotFound,

    /// Exceeds the maximum length of the description field.
    /// [Documentation](https://developer.apple.com/documentation/advancedcommerceapi/descriptionlengthexceeded)
    DescriptionLengthExceeded,

    /// Exceeds the maximum length of the displayName field.
    /// [Documentation](https://developer.apple.com/documentation/advancedcommerceapi/displaynamelengthexceeded)
    DisplayNameLengthExceeded,

    /// The addItems and changeItems entries cannot be empty.
    /// [Documentation](https://developer.apple.com/documentation/advancedcommerceapi/emptyaddchangeitems)
    EmptyAddChangeItems,

    /// An unknown error occurred.
    /// [Documentation](https://developer.apple.com/documentation/advancedcommerceapi/generalinternal)
    GeneralInternal,

    /// An unknown error occurred. Please try again.
    /// [Documentation](https://developer.apple.com/documentation/advancedcommerceapi/generalinternalretryable)
    GeneralInternalRetryable,

    /// The subscription is not active.
    /// [Documentation](https://developer.apple.com/documentation/advancedcommerceapi/inactiveacasub)
    InactiveACASub,

    /// Insufficient funds for refund.
    /// [Documentation](https://developer.apple.com/documentation/advancedcommerceapi/insufficientfunds)
    InsufficientFunds,

    /// The amount is invalid.
    /// [Documentation](https://developer.apple.com/documentation/advancedcommerceapi/invalidamount)
    InvalidAmount,

    /// The appAccountToken field must contain a valid UUID or an empty string.
    /// [Documentation](https://developer.apple.com/documentation/advancedcommerceapi/invalidappaccounttoken)
    InvalidAppAccountToken,

    /// The change reason is invalid.
    /// [Documentation](https://developer.apple.com/documentation/advancedcommerceapi/invalidchangereason)
    InvalidChangeReason,

    /// The consistencyToken value is invalid.
    /// [Documentation](https://developer.apple.com/documentation/advancedcommerceapi/invalidconsistencytoken)
    InvalidConsistencyToken,

    /// The currency value is invalid.
    /// [Documentation](https://developer.apple.com/documentation/advancedcommerceapi/invalidcurrency)
    InvalidCurrency,

    /// The description is invalid.
    /// [Documentation](https://developer.apple.com/documentation/advancedcommerceapi/invaliddescription)
    InvalidDescription,

    /// The displayName is invalid.
    /// [Documentation](https://developer.apple.com/documentation/advancedcommerceapi/invaliddisplayname)
    InvalidDisplayName,

    /// The offer periodCount is invalid.
    /// [Documentation](https://developer.apple.com/documentation/advancedcommerceapi/invalidofferperiodcount)
    InvalidOfferPeriodCount,

    /// The offer period is invalid.
    /// [Documentation](https://developer.apple.com/documentation/advancedcommerceapi/invalidofferperiod)
    InvalidOfferPeriod,

    /// The subscription offer price is higher than the regular subscription price.
    /// [Documentation](https://developer.apple.com/documentation/advancedcommerceapi/invalidofferprice)
    InvalidOfferPrice,

    /// The offer reason is invalid.
    /// [Documentation](https://developer.apple.com/documentation/advancedcommerceapi/invalidofferreason)
    InvalidOfferReason,

    /// The operation is invalid.
    /// [Documentation](https://developer.apple.com/documentation/advancedcommerceapi/invalidoperation)
    InvalidOperation,

    /// The previous subscription targeted is invalid.
    /// [Documentation](https://developer.apple.com/documentation/advancedcommerceapi/invalidprevioussubscription)
    InvalidPreviousSubscription,

    /// Previous original transaction id is invalid.
    /// [Documentation](https://developer.apple.com/documentation/advancedcommerceapi/invalidprevioustransactionid)
    InvalidPreviousTransactionID,

    /// Product changes are invalid.
    /// [Documentation](https://developer.apple.com/documentation/advancedcommerceapi/invalidproductchanges)
    InvalidProductChanges,

    /// The requested product to change doesn't exist.
    /// [Documentation](https://developer.apple.com/documentation/advancedcommerceapi/invalidproduct)
    InvalidProduct,

    /// The prorated price was invalid.
    /// [Documentation](https://developer.apple.com/documentation/advancedcommerceapi/invalidproratedprice)
    InvalidProratedPrice,

    /// The refundReason is invalid.
    /// [Documentation](https://developer.apple.com/documentation/advancedcommerceapi/invalidrefundreason)
    InvalidRefundReason,

    /// The refundType is invalid.
    /// [Documentation](https://developer.apple.com/documentation/advancedcommerceapi/invalidrefundtype)
    InvalidRefundType,

    /// The renewal period is invalid.
    /// [Documentation](https://developer.apple.com/documentation/advancedcommerceapi/invalidrenewalperiod)
    InvalidRenewalPeriod,

    /// The renewal price is invalid.
    /// [Documentation](https://developer.apple.com/documentation/advancedcommerceapi/invalidrenewalprice)
    InvalidRenewalPrice,

    /// The requestReferenceId value is invalid.
    /// [Documentation](https://developer.apple.com/documentation/advancedcommerceapi/invalidrequestreferenceid)
    InvalidRequestReferenceID,

    /// The salable duration is invalid.
    /// [Documentation](https://developer.apple.com/documentation/advancedcommerceapi/invalidsalableduration)
    InvalidSalableDuration,

    /// The targeted salable isn't configured as a generic salable.
    /// [Documentation](https://developer.apple.com/documentation/advancedcommerceapi/invalidsalable)
    InvalidSalable,

    /// The signature is invalid.
    /// [Documentation](https://developer.apple.com/documentation/advancedcommerceapi/invalidsignature)
    InvalidSignature,

    /// The SKU was invalid.
    /// [Documentation](https://developer.apple.com/documentation/advancedcommerceapi/invalidsku)
    InvalidSKU,

    /// The storefront value is invalid.
    /// [Documentation](https://developer.apple.com/documentation/advancedcommerceapi/invalidstorefront)
    InvalidStorefront,

    /// The targetProductID value is invalid.
    /// [Documentation](https://developer.apple.com/documentation/advancedcommerceapi/invalidtargetproductid)
    InvalidTargetProductID,

    /// The taxCode is invalid.
    /// [Documentation](https://developer.apple.com/documentation/advancedcommerceapi/invalidtaxproductcode)
    InvalidTaxProductCode,

    /// The transactionId is invalid.
    /// [Documentation](https://developer.apple.com/documentation/advancedcommerceapi/invalidtransactionid)
    InvalidTransactionId,

    /// The number of items in subscription exceeds the limit.
    /// [Documentation](https://developer.apple.com/documentation/advancedcommerceapi/itemlimitexceeded)
    ItemLimitExceeded,

    /// The payload is malformed.
    /// [Documentation](https://developer.apple.com/documentation/advancedcommerceapi/malformedpayload)
    MalformedPayload,

    /// The request contains a billing period that doesn't align with the subscription's billing cycle.
    /// [Documentation](https://developer.apple.com/documentation/advancedcommerceapi/misalignedbillingcycle)
    MisalignedBillingCycle,

    /// The storefronts mismatch.
    /// [Documentation](https://developer.apple.com/documentation/advancedcommerceapi/mismatchedstorefront)
    MismatchedStorefront,

    /// Pricing isn't configured for the storefront.
    /// [Documentation](https://developer.apple.com/documentation/advancedcommerceapi/missingpricingconfigforstorefront)
    MissingPricingConfigForStorefront,

    /// All items must be updated on a period change.
    /// [Documentation](https://developer.apple.com/documentation/advancedcommerceapi/missingupdateditemswithperiodchange)
    MissingUpdatedItemsWithPeriodChange,

    /// More items were provided than allowed.
    /// [Documentation](https://developer.apple.com/documentation/advancedcommerceapi/moreitemsthanallowed)
    MoreItemsThanAllowed,

    /// More offers were provided than allowed.
    /// [Documentation](https://developer.apple.com/documentation/advancedcommerceapi/moreoffersthanallowed)
    MoreOffersThanAllowed,

    /// Multiple operations on a single SKU isn't allowed.
    /// [Documentation](https://developer.apple.com/documentation/advancedcommerceapi/multipleoperationsonsinglesku)
    MultipleOperationsOnSingleSKU,

    /// Prorated price and offer price are mutually exclusive.
    /// [Documentation](https://developer.apple.com/documentation/advancedcommerceapi/multipleprices)
    MultiplePrices,

    /// The price field must contain a positive number.
    /// [Documentation](https://developer.apple.com/documentation/advancedcommerceapi/negativeprice)
    NegativePrice,

    /// Exceeds the maximum length of the price field.
    /// [Documentation](https://developer.apple.com/documentation/advancedcommerceapi/negativeproratedprice)
    NegativeProratedPrice,

    /// The refundAmount must be a positive number.
    /// [Documentation](https://developer.apple.com/documentation/advancedcommerceapi/negativerefundamount)
    NegativeRefundAmount,

    /// The required field, advancedCommerceData, was null.
    /// [Documentation](https://developer.apple.com/documentation/advancedcommerceapi/nulladvancedcommercedata)
    NullAdvancedCommerceData,

    /// The required field, currency, is missing.
    /// [Documentation](https://developer.apple.com/documentation/advancedcommerceapi/nullcurrency)
    NullCurrency,

    /// The required field, currentSKU, is missing.
    /// [Documentation](https://developer.apple.com/documentation/advancedcommerceapi/nullcurrentsku)
    NullCurrentSKU,

    /// The required field, description, is missing.
    /// [Documentation](https://developer.apple.com/documentation/advancedcommerceapi/nulldescription)
    NullDescription,

    /// The required field, descriptors, is missing.
    /// [Documentation](https://developer.apple.com/documentation/advancedcommerceapi/nulldescriptors)
    NullDescriptors,

    /// The required field, displayName, is missing.
    /// [Documentation](https://developer.apple.com/documentation/advancedcommerceapi/nulldisplayname)
    NullDisplayName,

    /// The required field, effective, is missing.
    /// [Documentation](https://developer.apple.com/documentation/advancedcommerceapi/nulleffective)
    NullEffective,

    /// The required field, item, is missing.
    /// [Documentation](https://developer.apple.com/documentation/advancedcommerceapi/nullitem)
    NullItem,

    /// The required field, items, is missing.
    /// [Documentation](https://developer.apple.com/documentation/advancedcommerceapi/nullitems)
    NullItems,

    /// The required field, SKU in changeItems, is missing.
    /// [Documentation](https://developer.apple.com/documentation/advancedcommerceapi/nullnewsku)
    NullNewSKU,

    /// The required field, offer period, is missing.
    /// [Documentation](https://developer.apple.com/documentation/advancedcommerceapi/nullofferperiod)
    NullOfferPeriod,

    /// The required field, periodCount, is missing.
    /// [Documentation](https://developer.apple.com/documentation/advancedcommerceapi/nullperiodcount)
    NullPeriodCount,

    /// The required field, period, is missing.
    /// [Documentation](https://developer.apple.com/documentation/advancedcommerceapi/nullperiod)
    NullPeriod,

    /// The required field, price, is missing.
    /// [Documentation](https://developer.apple.com/documentation/advancedcommerceapi/nullprice)
    NullPrice,

    /// The required field, reason, is missing.
    /// [Documentation](https://developer.apple.com/documentation/advancedcommerceapi/nullreason)
    NullReason,

    /// The refundAmount value is invalid.
    /// [Documentation](https://developer.apple.com/documentation/advancedcommerceapi/nullrefundamount)
    NullRefundAmount,

    /// The required field, refundReason, is missing.
    /// [Documentation](https://developer.apple.com/documentation/advancedcommerceapi/nullrefundreason)
    NullRefundReason,

    /// The required field, refundRiskingPreference, is missing.
    /// [Documentation](https://developer.apple.com/documentation/advancedcommerceapi/nullrefundrisking)
    NullRefundRisking,

    /// The required field, refundType, is missing.
    /// [Documentation](https://developer.apple.com/documentation/advancedcommerceapi/nullrefundtype)
    NullRefundType,

    /// The required field, requestInfo, is missing.
    /// [Documentation](https://developer.apple.com/documentation/advancedcommerceapi/nullrequestinfo)
    NullRequestInfo,

    /// The required field, requestReferenceId, is missing.
    /// [Documentation](https://developer.apple.com/documentation/advancedcommerceapi/nullrequestreferenceid)
    NullRequestReferenceID,

    /// The required field, retainBillingCycle, is missing.
    /// [Documentation](https://developer.apple.com/documentation/advancedcommerceapi/nullretainbillingcycle)
    NullRetainBillingCycle,

    /// The required field, SKU, is missing.
    /// [Documentation](https://developer.apple.com/documentation/advancedcommerceapi/nullsku)
    NullSKU,

    /// The required field, storefront, is missing.
    /// [Documentation](https://developer.apple.com/documentation/advancedcommerceapi/nullstorefront)
    NullStorefront,

    /// The required field, targetProductID, is missing.
    /// [Documentation](https://developer.apple.com/documentation/advancedcommerceapi/nulltargetproductid)
    NullTargetProductID,

    /// The required field, taxCode, is missing.
    /// [Documentation](https://developer.apple.com/documentation/advancedcommerceapi/nulltaxcode)
    NullTaxCode,

    /// The required field, transactionId, is missing.
    /// [Documentation](https://developer.apple.com/documentation/advancedcommerceapi/nulltransactionid)
    NullTransactionId,

    /// The required field, version, is missing.
    /// [Documentation](https://developer.apple.com/documentation/advancedcommerceapi/nullversion)
    NullVersion,

    /// An existing offer prevents changes to the item mid-cycle.
    /// [Documentation](https://developer.apple.com/documentation/advancedcommerceapi/offerpreventsitemmidcyclechange)
    OfferPreventsItemMidCycleChange,

    /// At least one type of change must be provided in a modify subscription request.
    /// [Documentation](https://developer.apple.com/documentation/advancedcommerceapi/oneitemneededinmodify)
    OneItemNeededInModify,

    /// The operation isn't allowed.
    /// [Documentation](https://developer.apple.com/documentation/advancedcommerceapi/operationnotallowed)
    OperationNotAllowed,

    /// If one item has a refundReason value of SIMULATE_REFUND_DECLINE, all items must have a refundReason value of SIMULATE_REFUND_DECLINE.
    /// [Documentation](https://developer.apple.com/documentation/advancedcommerceapi/partialsimulaterefunddecline)
    PartialSimulateRefundDecline,

    /// Pending subscription changes must specify a renewalItem, and if there are no pending changes, a renewalItem cannot be specified.
    /// [Documentation](https://developer.apple.com/documentation/advancedcommerceapi/pendingchangesmismatch)
    PendingChangesMismatch,

    /// The transaction has pending refunds.
    /// [Documentation](https://developer.apple.com/documentation/advancedcommerceapi/pendingrefund)
    PendingRefund,

    /// A period change at next cycle conflicts with addition at the current period.
    /// [Documentation](https://developer.apple.com/documentation/advancedcommerceapi/periodchangeeffectiveconflict)
    PeriodChangeEffectiveConflict,

    /// Period change immediately with effective later.
    /// [Documentation](https://developer.apple.com/documentation/advancedcommerceapi/periodchangeimmediatewitheffectiveatnextbillingcycle)
    PeriodChangeImmediateWithEffectiveAtNextBillingCycle,

    /// Period count must be a positive number.
    /// [Documentation](https://developer.apple.com/documentation/advancedcommerceapi/periodcountnotpositive)
    PeriodCountNotPositive,

    /// Period reset conflicts with retaining billing cycle.
    /// [Documentation](https://developer.apple.com/documentation/advancedcommerceapi/periodresetwithretainbillingcycle)
    PeriodResetWithRetainBillingCycle,

    /// Changing the price isn't supported as part of a modify items request.
    /// [Documentation](https://developer.apple.com/documentation/advancedcommerceapi/pricechangenotsupportedthroughmodifyitems)
    PriceChangeNotSupportedThroughModifyItems,

    /// Provided SKU is already owned.
    /// [Documentation](https://developer.apple.com/documentation/advancedcommerceapi/productalreadyexists)
    ProductAlreadyExists,

    /// The product isn't eligible for the requested operation.
    /// [Documentation](https://developer.apple.com/documentation/advancedcommerceapi/productnoteligible)
    ProductNotEligible,

    /// Product not found.
    /// [Documentation](https://developer.apple.com/documentation/advancedcommerceapi/productnotfound)
    ProductNotFound,

    /// The customer doesn't own the product.
    /// [Documentation](https://developer.apple.com/documentation/advancedcommerceapi/productnotowned)
    ProductNotOwned,

    /// Only requests against the latest transaction can have a PRORATED refundType value.
    /// [Documentation](https://developer.apple.com/documentation/advancedcommerceapi/proratedonlylatesttransaction)
    ProratedOnlyLatestTransaction,

    /// Rate limit exceeded.
    /// [Documentation](https://developer.apple.com/documentation/advancedcommerceapi/ratelimitexceeded)
    RateLimitExceeded,

    /// Can't provide the refund amount because the refundType isn't CUSTOM.
    /// [Documentation](https://developer.apple.com/documentation/advancedcommerceapi/refundamountwithoutcustom)
    RefundAmountWithoutCustom,

    /// The active subscription must contain at least one item and cannot be completely empty.
    /// [Documentation](https://developer.apple.com/documentation/advancedcommerceapi/removalallnotallowed)
    RemovalAllNotAllowed,

    /// A product in removeItems wasn't found for the given subscription.
    /// [Documentation](https://developer.apple.com/documentation/advancedcommerceapi/removeitemnotfound)
    RemoveItemNotFound,

    /// The removeItems object was present without addItems or changeItems.
    /// [Documentation](https://developer.apple.com/documentation/advancedcommerceapi/removeitemswithoutaddorchangeitems)
    RemoveItemsWithoutAddOrChangeItems,

    /// The requestReferenceId was repeated.
    /// [Documentation](https://developer.apple.com/documentation/advancedcommerceapi/repeatedrequestreferenceid)
    RepeatedRequestReferenceId,

    /// Only active subscriptions are revocable.
    /// [Documentation](https://developer.apple.com/documentation/advancedcommerceapi/revokeoninactivesubscription)
    RevokeOnInactiveSubscription,

    /// The type SIMULATE_REFUND_DECLINE is only valid in Sandbox.
    /// [Documentation](https://developer.apple.com/documentation/advancedcommerceapi/simulaterefunddeclineonlyinsandbox)
    SimulateRefundDeclineOnlyInSandbox,

    /// Exceeds the maximum length of the SKU field.
    /// [Documentation](https://developer.apple.com/documentation/advancedcommerceapi/skulengthexceeded)
    SKULengthExceeded,

    /// The storefront changed.
    /// [Documentation](https://developer.apple.com/documentation/advancedcommerceapi/storefrontchange)
    StorefrontChange,

    /// The subscription is already active, and cannot be reactivated or renewed at this time.
    /// [Documentation](https://developer.apple.com/documentation/advancedcommerceapi/subscriptionalreadyactive)
    SubscriptionAlreadyActive,

    /// The subscription already exists.
    /// [Documentation](https://developer.apple.com/documentation/advancedcommerceapi/subscriptionalreadyexists)
    SubscriptionAlreadyExists,

    /// The subscription was already migrated.
    /// [Documentation](https://developer.apple.com/documentation/advancedcommerceapi/subscriptionalreadymigrated)
    SubscriptionAlreadyMigrated,

    /// The subscription doesn't exist.
    /// [Documentation](https://developer.apple.com/documentation/advancedcommerceapi/subscriptiondoesnotexist)
    SubscriptionDoesNotExist,

    /// The subscription isn't eligible for the requested changes.
    /// [Documentation](https://developer.apple.com/documentation/advancedcommerceapi/subscriptionnoteligible)
    SubscriptionNotEligible,

    /// Transaction id not found.
    /// [Documentation](https://developer.apple.com/documentation/advancedcommerceapi/transactionidnotfound)
    TransactionIdNotFound,

    /// The transaction is not refundable.
    /// [Documentation](https://developer.apple.com/documentation/advancedcommerceapi/transactionnotrefundable)
    TransactionNotRefundable,

    /// The transaction can't be refunded; customer can contact Apple Support for assistance.
    /// [Documentation](https://developer.apple.com/documentation/advancedcommerceapi/transactioncannotberefundedcontactsupport)
    TransactionCannotBeRefundedContactSupport,

    /// Unauthorized.
    /// [Documentation](https://developer.apple.com/documentation/advancedcommerceapi/unauthorized)
    Unauthorized,

    /// The value of version is invalid.
    /// [Documentation](https://developer.apple.com/documentation/advancedcommerceapi/unexpectedversion)
    UnexpectedVersion,
}

impl APIErrorCode {
    /// The numeric error code the API uses for this variant.
    pub open spec fn error_code(self) -> i64 {
        match self {
            APIErrorCode::AlreadyRefunded => 4030021i64,
            APIErrorCode::AtLeastOneItem => 4000160i64,
            APIErrorCode::AtLeastOneOfDisplayNameOrDescription => 4000165i64,
            APIErrorCode::BillingCycleResetWithEffectiveLater => 4000148i64,
            APIErrorCode::ChangeItemNotFound => 4000146i64,
            APIErrorCode::DescriptionLengthExceeded => 4000088i64,
            APIErrorCode::DisplayNameLengthExceeded => 4000089i64,
            APIErrorCode::EmptyAddChangeItems => 4000139i64,
            APIErrorCode::GeneralInternal => 5000000i64,
            APIErrorCode::GeneralInternalRetryable => 5000001i64,
            APIErrorCode::InactiveACASub => 4030015i64,
            APIErrorCode::InsufficientFunds => 4030020i64,
            APIErrorCode::InvalidAmount => 4000132i64,
            APIErrorCode::InvalidAppAccountToken => 4000033i64,
            APIErrorCode::InvalidChangeReason => 4000125i64,
            APIErrorCode::InvalidConsistencyToken => 4000082i64,
            APIErrorCode::InvalidCurrency => 4000053i64,
            APIErrorCode::InvalidDescription => 4000119i64,
            APIErrorCode::InvalidDisplayName => 4000118i64,
            APIErrorCode::InvalidOfferPeriodCount => 4000129i64,
            APIErrorCode::InvalidOfferPeriod => 4000128i64,
            APIErrorCode::InvalidOfferPrice => 4000152i64,
            APIErrorCode::InvalidOfferReason => 4000126i64,
            APIErrorCode::InvalidOperation => 4000172i64,
            APIErrorCode::InvalidPreviousSubscription => 4000113i64,
            APIErrorCode::InvalidPreviousTransactionID => 4000096i64,
            APIErrorCode::InvalidProductChanges => 4000115i64,
            APIErrorCode::InvalidProduct => 4000121i64,
            APIErrorCode::InvalidProratedPrice => 4000151i64,
            APIErrorCode::InvalidRefundReason => 4000124i64,
            APIErrorCode::InvalidRefundType => 4000123i64,
            APIErrorCode::InvalidRenewalPeriod => 4000130i64,
            APIErrorCode::InvalidRenewalPrice => 4000131i64,
            APIErrorCode::InvalidRequestReferenceID => 4000081i64,
            APIErrorCode::InvalidSalableDuration => 4000117i64,
            APIErrorCode::InvalidSalable => 4000116i64,
            APIErrorCode::InvalidSignature => 4000174i64,
            APIErrorCode::InvalidSKU => 4000122i64,
            APIErrorCode::InvalidStorefront => 4000028i64,
            APIErrorCode::InvalidTargetProductID => 4000167i64,
            APIErrorCode::InvalidTaxProductCode => 4000127i64,
            APIErrorCode::InvalidTransactionId => 4000006i64,
            APIErrorCode::ItemLimitExceeded => 4000179i64,
            APIErrorCode::MalformedPayload => 4000173i64,
            APIErrorCode::MisalignedBillingCycle => 4000147i64,
            APIErrorCode::MismatchedStorefront => 4000133i64,
            APIErrorCode::MissingPricingConfigForStorefront => 4000134i64,
            APIErrorCode::MissingUpdatedItemsWithPeriodChange => 4000140i64,
            APIErrorCode::MoreItemsThanAllowed => 4000136i64,
            APIErrorCode::MoreOffersThanAllowed => 4000137i64,
            APIErrorCode::MultipleOperationsOnSingleSKU => 4000143i64,
            APIErrorCode::MultiplePrices => 4000150i64,
            APIErrorCode::NegativePrice => 4000086i64,
            APIErrorCode::NegativeProratedPrice => 4000091i64,
            APIErrorCode::NegativeRefundAmount => 4000154i64,
            APIErrorCode::NullAdvancedCommerceData => 4000171i64,
            APIErrorCode::NullCurrency => 4000098i64,
            APIErrorCode::NullCurrentSKU => 4000169i64,
            APIErrorCode::NullDescription => 4000107i64,
            APIErrorCode::NullDescriptors => 4000103i64,
            APIErrorCode::NullDisplayName => 4000106i64,
            APIErrorCode::NullEffective => 4000111i64,
            APIErrorCode::NullItem => 4000102i64,
            APIErrorCode::NullItems => 4000101i64,
            APIErrorCode::NullNewSKU => 4000112i64,
            APIErrorCode::NullOfferPeriod => 4000092i64,
            APIErrorCode::NullPeriodCount => 4000093i64,
            APIErrorCode::NullPeriod => 4000104i64,
            APIErrorCode::NullPrice => 4000109i64,
            APIErrorCode::NullReason => 4000095i64,
            APIErrorCode::NullRefundAmount => 4000153i64,
            APIErrorCode::NullRefundReason => 4000156i64,
            APIErrorCode::NullRefundRisking => 4000159i64,
            APIErrorCode::NullRefundType => 4000157i64,
            APIErrorCode::NullRequestInfo => 4000079i64,
            APIErrorCode::NullRequestReferenceID => 4000080i64,
            APIErrorCode::NullRetainBillingCycle => 4000110i64,
            APIErrorCode::NullSKU => 4000105i64,
            APIErrorCode::NullStorefront => 4000100i64,
            APIErrorCode::NullTargetProductID => 4000166i64,
            APIErrorCode::NullTaxCode => 4000099i64,
            APIErrorCode::NullTransactionId => 4000085i64,
            APIErrorCode::NullVersion => 4000083i64,
            APIErrorCode::OfferPreventsItemMidCycleChange => 4000177i64,
            APIErrorCode::OneItemNeededInModify => 4000063i64,
            APIErrorCode::OperationNotAllowed => 4000135i64,
            APIErrorCode::PartialSimulateRefundDecline => 4000184i64,
            APIErrorCode::PendingChangesMismatch => 4000180i64,
            APIErrorCode::PendingRefund => 4000181i64,
            APIErrorCode::PeriodChangeEffectiveConflict => 4000142i64,
            APIErrorCode::PeriodChangeImmediateWithEffectiveAtNextBillingCycle => 4000149i64,
            APIErrorCode::PeriodCountNotPositive => 4000094i64,
            APIErrorCode::PeriodResetWithRetainBillingCycle => 4000141i64,
            APIErrorCode::PriceChangeNotSupportedThroughModifyItems => 4000178i64,
            APIErrorCode::ProductAlreadyExists => 4000114i64,
            APIErrorCode::ProductNotEligible => 4030023i64,
            APIErrorCode::ProductNotFound => 4040016i64,
            APIErrorCode::ProductNotOwned => 4030013i64,
            APIErrorCode::ProratedOnlyLatestTransaction => 4000182i64,
            APIErrorCode::RateLimitExceeded => 4290000i64,
            APIErrorCode::RefundAmountWithoutCustom => 4000155i64,
            APIErrorCode::RemovalAllNotAllowed => 4000168i64,
            APIErrorCode::RemoveItemNotFound => 4000145i64,
            APIErrorCode::RemoveItemsWithoutAddOrChangeItems => 4000144i64,
            APIErrorCode::RepeatedRequestReferenceId => 4000097i64,
            APIErrorCode::RevokeOnInactiveSubscription => 4000186i64,
            APIErrorCode::SimulateRefundDeclineOnlyInSandbox => 4000158i64,
            APIErrorCode::SKULengthExceeded => 4000087i64,
            APIErrorCode::StorefrontChange => 4030022i64,
            APIErrorCode::SubscriptionAlreadyActive => 4030011i64,
            APIErrorCode::SubscriptionAlreadyExists => 4030009i64,
            APIErrorCode::SubscriptionAlreadyMigrated => 4000176i64,
            APIErrorCode::SubscriptionDoesNotExist => 4030008i64,
            APIErrorCode::SubscriptionNotEligible => 4030010i64,
            APIErrorCode::TransactionIdNotFound => 4040010i64,
            APIErrorCode::TransactionNotRefundable => 4030024i64,
            APIErrorCode::TransactionCannotBeRefundedContactSupport => 4030025i64,
            APIErrorCode::Unauthorized => 4010000i64,
            APIErrorCode::UnexpectedVersion => 4000084i64,
        }
    }

    /// The numeric error code the API uses for this variant.
    pub fn code(&self) -> (c: i64)
        ensures
            c == self.error_code(),
    {
        match self {
            APIErrorCode::AlreadyRefunded => 4030021,
            APIErrorCode::AtLeastOneItem => 4000160,
            APIErrorCode::AtLeastOneOfDisplayNameOrDescription => 4000165,
            APIErrorCode::BillingCycleResetWithEffectiveLater => 4000148,
            APIErrorCode::ChangeItemNotFound => 4000146,
            APIErrorCode::DescriptionLengthExceeded => 4000088,
            APIErrorCode::DisplayNameLengthExceeded => 4000089,
            APIErrorCode::EmptyAddChangeItems => 4000139,
            APIErrorCode::GeneralInternal => 5000000,
            APIErrorCode::GeneralInternalRetryable => 5000001,
            APIErrorCode::InactiveACASub => 4030015,
            APIErrorCode::InsufficientFunds => 4030020,
            APIErrorCode::InvalidAmount => 4000132,
            APIErrorCode::InvalidAppAccountToken => 4000033,
            APIErrorCode::InvalidChangeReason => 4000125,
            APIErrorCode::InvalidConsistencyToken => 4000082,
            APIErrorCode::InvalidCurrency => 4000053,
            APIErrorCode::InvalidDescription => 4000119,
            APIErrorCode::InvalidDisplayName => 4000118,
            APIErrorCode::InvalidOfferPeriodCount => 4000129,
            APIErrorCode::InvalidOfferPeriod => 4000128,
            APIErrorCode::InvalidOfferPrice => 4000152,
            APIErrorCode::InvalidOfferReason => 4000126,
            APIErrorCode::InvalidOperation => 4000172,
            APIErrorCode::InvalidPreviousSubscription => 4000113,
            APIErrorCode::InvalidPreviousTransactionID => 4000096,
            APIErrorCode::InvalidProductChanges => 4000115,
            APIErrorCode::InvalidProduct => 4000121,
            APIErrorCode::InvalidProratedPrice => 4000151,
            APIErrorCode::InvalidRefundReason => 4000124,
            APIErrorCode::InvalidRefundType => 4000123,
            APIErrorCode::InvalidRenewalPeriod => 4000130,
            APIErrorCode::InvalidRenewalPrice => 4000131,
            APIErrorCode::InvalidRequestReferenceID => 4000081,
            APIErrorCode::InvalidSalableDuration => 4000117,
            APIErrorCode::InvalidSalable => 4000116,
            APIErrorCode::InvalidSignature => 4000174,
            APIErrorCode::InvalidSKU => 4000122,
            APIErrorCode::InvalidStorefront => 4000028,
            APIErrorCode::InvalidTargetProductID => 4000167,
            APIErrorCode::InvalidTaxProductCode => 4000127,
            APIErrorCode::InvalidTransactionId => 4000006,
            APIErrorCode::ItemLimitExceeded => 4000179,
            APIErrorCode::MalformedPayload => 4000173,
            APIErrorCode::MisalignedBillingCycle => 4000147,
            APIErrorCode::MismatchedStorefront => 4000133,
            APIErrorCode::MissingPricingConfigForStorefront => 4000134,
            APIErrorCode::MissingUpdatedItemsWithPeriodChange => 4000140,
            APIErrorCode::MoreItemsThanAllowed => 4000136,
            APIErrorCode::MoreOffersThanAllowed => 4000137,
            APIErrorCode::MultipleOperationsOnSingleSKU => 4000143,
            APIErrorCode::MultiplePrices => 4000150,
            APIErrorCode::NegativePrice => 4000086,
            APIErrorCode::NegativeProratedPrice => 4000091,
            APIErrorCode::NegativeRefundAmount => 4000154,
            APIErrorCode::NullAdvancedCommerceData => 4000171,
            APIErrorCode::NullCurrency => 4000098,
            APIErrorCode::NullCurrentSKU => 4000169,
            APIErrorCode::NullDescription => 4000107,
            APIErrorCode::NullDescriptors => 4000103,
            APIErrorCode::NullDisplayName => 4000106,
            APIErrorCode::NullEffective => 4000111,
            APIErrorCode::NullItem => 4000102,
            APIErrorCode::NullItems => 4000101,
            APIErrorCode::NullNewSKU => 4000112,
            APIErrorCode::NullOfferPeriod => 4000092,
            APIErrorCode::NullPeriodCount => 4000093,
            APIErrorCode::NullPeriod => 4000104,
            APIErrorCode::NullPrice => 4000109,
            APIErrorCode::NullReason => 4000095,
            APIErrorCode::NullRefundAmount => 4000153,
            APIErrorCode::NullRefundReason => 4000156,
            APIErrorCode::NullRefundRisking => 4000159,
            APIErrorCode::NullRefundType => 4000157,
            APIErrorCode::NullRequestInfo => 4000079,
            APIErrorCode::NullRequestReferenceID => 4000080,
            APIErrorCode::NullRetainBillingCycle => 4000110,
            APIErrorCode::NullSKU => 4000105,
            APIErrorCode::NullStorefront => 4000100,
            APIErrorCode::NullTargetProductID => 4000166,
            APIErrorCode::NullTaxCode => 4000099,
            APIErrorCode::NullTransactionId => 4000085,
            APIErrorCode::NullVersion => 4000083,
            APIErrorCode::OfferPreventsItemMidCycleChange => 4000177,
            APIErrorCode::OneItemNeededInModify => 4000063,
            APIErrorCode::OperationNotAllowed => 4000135,
            APIErrorCode::PartialSimulateRefundDecline => 4000184,
            APIErrorCode::PendingChangesMismatch => 4000180,
            APIErrorCode::PendingRefund => 4000181,
            APIErrorCode::PeriodChangeEffectiveConflict => 4000142,
            APIErrorCode::PeriodChangeImmediateWithEffectiveAtNextBillingCycle => 4000149,
            APIErrorCode::PeriodCountNotPositive => 4000094,
            APIErrorCode::PeriodResetWithRetainBillingCycle => 4000141,
            APIErrorCode::PriceChangeNotSupportedThroughModifyItems => 4000178,
            APIErrorCode::ProductAlreadyExists => 4000114,
            APIErrorCode::ProductNotEligible => 4030023,
            APIErrorCode::ProductNotFound => 4040016,
            APIErrorCode::ProductNotOwned => 4030013,
            APIErrorCode::ProratedOnlyLatestTransaction => 4000182,
            APIErrorCode::RateLimitExceeded => 4290000,
            APIErrorCode::RefundAmountWithoutCustom => 4000155,
            APIErrorCode::RemovalAllNotAllowed => 4000168,
            APIErrorCode::RemoveItemNotFound => 4000145,
            APIErrorCode::RemoveItemsWithoutAddOrChangeItems => 4000144,
            APIErrorCode::RepeatedRequestReferenceId => 4000097,
            APIErrorCode::RevokeOnInactiveSubscription => 4000186,
            APIErrorCode::SimulateRefundDeclineOnlyInSandbox => 4000158,
            APIErrorCode::SKULengthExceeded => 4000087,
            APIErrorCode::StorefrontChange => 4030022,
            APIErrorCode::SubscriptionAlreadyActive => 4030011,
            APIErrorCode::SubscriptionAlreadyExists => 4030009,
            APIErrorCode::SubscriptionAlreadyMigrated => 4000176,
            APIErrorCode::SubscriptionDoesNotExist => 4030008,
            APIErrorCode::SubscriptionNotEligible => 4030010,
            APIErrorCode::TransactionIdNotFound => 4040010,
            APIErrorCode::TransactionNotRefundable => 4030024,
            APIErrorCode::TransactionCannotBeRefundedContactSupport => 4030025,
            APIErrorCode::Unauthorized => 4010000,
            APIErrorCode::UnexpectedVersion => 4000084,
        }
    }

    /// The documented message of each error.
    pub open spec fn message_text(self) -> Seq<char> {
        match self {
            APIErrorCode::AlreadyRefunded => "The transaction was already refunded."@,
            APIErrorCode::AtLeastOneItem => "When included, provide at least one item in items."@,
            APIErrorCode::AtLeastOneOfDisplayNameOrDescription => "Provide either the displayName or a description."@,
            APIErrorCode::BillingCycleResetWithEffectiveLater => "Bill cycle reset with effective later."@,
            APIErrorCode::ChangeItemNotFound => "The targeted item in changeItems wasn't found."@,
            APIErrorCode::DescriptionLengthExceeded => "Exceeds the maximum length of the description field."@,
            APIErrorCode::DisplayNameLengthExceeded => "Exceeds the maximum length of the displayName field."@,
            APIErrorCode::EmptyAddChangeItems => "The addItems and changeItems entries cannot be empty."@,
            APIErrorCode::GeneralInternal => "An unknown error occurred."@,
            APIErrorCode::GeneralInternalRetryable => "An unknown error occurred. Please try again."@,
            APIErrorCode::InactiveACASub => "The subscription is not active."@,
            APIErrorCode::InsufficientFunds => "Insufficient funds for refund."@,
            APIErrorCode::InvalidAmount => "The amount is invalid."@,
            APIErrorCode::InvalidAppAccountToken => "The appAccountToken field must contain a valid UUID or an empty string."@,
            APIErrorCode::InvalidChangeReason => "The change reason is invalid."@,
            APIErrorCode::InvalidConsistencyToken => "The consistencyToken value is invalid."@,
            APIErrorCode::InvalidCurrency => "The currency value is invalid."@,
            APIErrorCode::InvalidDescription => "The description is invalid."@,
            APIErrorCode::InvalidDisplayName => "The displayName is invalid."@,
            APIErrorCode::InvalidOfferPeriodCount => "The offer periodCount is invalid."@,
            APIErrorCode::InvalidOfferPeriod => "The offer period is invalid."@,
            APIErrorCode::InvalidOfferPrice => "The subscription offer price is higher than the regular subscription price."@,
            APIErrorCode::InvalidOfferReason => "The offer reason is invalid."@,
            APIErrorCode::InvalidOperation => "The operation is invalid."@,
            APIErrorCode::InvalidPreviousSubscription => "The previous subscription targeted is invalid."@,
            APIErrorCode::InvalidPreviousTransactionID => "Previous original transaction id is invalid."@,
            APIErrorCode::InvalidProductChanges => "Product changes are invalid."@,
            APIErrorCode::InvalidProduct => "The requested product to change doesn't exist."@,
            APIErrorCode::InvalidProratedPrice => "The prorated price was invalid."@,
            APIErrorCode::InvalidRefundReason => "The refundReason is invalid."@,
            APIErrorCode::InvalidRefundType => "The refundType is invalid."@,
            APIErrorCode::InvalidRenewalPeriod => "The renewal period is invalid."@,
            APIErrorCode::InvalidRenewalPrice => "The renewal price is invalid."@,
            APIErrorCode::InvalidRequestReferenceID => "The requestReferenceId value is invalid."@,
            APIErrorCode::InvalidSalableDuration => "The salable duration is invalid."@,
            APIErrorCode::InvalidSalable => "The targeted salable isn't configured as a generic salable."@,
            APIErrorCode::InvalidSignature => "The signature is invalid."@,
            APIErrorCode::InvalidSKU => "The SKU was invalid."@,
            APIErrorCode::InvalidStorefront => "The storefront value is invalid."@,
            APIErrorCode::InvalidTargetProductID => "The targetProductID value is invalid."@,
            APIErrorCode::InvalidTaxProductCode => "The taxCode is invalid."@,
            APIErrorCode::InvalidTransactionId => "The transactionId is invalid."@,
            APIErrorCode::ItemLimitExceeded => "The number of items in subscription exceeds the limit."@,
            APIErrorCode::MalformedPayload => "The payload is malformed."@,
            APIErrorCode::MisalignedBillingCycle => "The request contains a billing period that doesn't align with the subscription's billing cycle."@,
            APIErrorCode::MismatchedStorefront => "The storefronts mismatch."@,
            APIErrorCode::MissingPricingConfigForStorefront => "Pricing isn't configured for the storefront."@,
            APIErrorCode::MissingUpdatedItemsWithPeriodChange => "All items must be updated on a period change."@,
            APIErrorCode::MoreItemsThanAllowed => "More items were provided than allowed."@,
            APIErrorCode::MoreOffersThanAllowed => "More offers were provided than allowed."@,
            APIErrorCode::MultipleOperationsOnSingleSKU => "Multiple operations on a single SKU isn't allowed."@,
            APIErrorCode::MultiplePrices => "Prorated price and offer price are mutually exclusive."@,
            APIErrorCode::NegativePrice => "The price field must contain a positive number."@,
            APIErrorCode::NegativeProratedPrice => "Exceeds the maximum length of the price field."@,
            APIErrorCode::NegativeRefundAmount => "The refundAmount must be a positive number."@,
            APIErrorCode::NullAdvancedCommerceData => "The required field, advancedCommerceData, was null."@,
            APIErrorCode::NullCurrency => "The required field, currency, is missing."@,
            APIErrorCode::NullCurrentSKU => "The required field, currentSKU, is missing."@,
            APIErrorCode::NullDescription => "The required field, description, is missing."@,
            APIErrorCode::NullDescriptors => "The required field, descriptors, is missing."@,
            APIErrorCode::NullDisplayName => "The required field, displayName, is missing."@,
            APIErrorCode::NullEffective => "The required field, effective, is missing."@,
            APIErrorCode::NullItem => "The required field, item, is missing."@,
            APIErrorCode::NullItems => "The required field, items, is missing."@,
            APIErrorCode::NullNewSKU => "The required field, SKU in changeItems, is missing."@,
            APIErrorCode::NullOfferPeriod => "The required field, offer period, is missing."@,
            APIErrorCode::NullPeriodCount => "The required field, periodCount, is missing."@,
            APIErrorCode::NullPeriod => "The required field, period, is missing."@,
            APIErrorCode::NullPrice => "The required field, price, is missing."@,
            APIErrorCode::NullReason => "The required field, reason, is missing."@,
            APIErrorCode::NullRefundAmount => "The refundAmount value is invalid."@,
            APIErrorCode::NullRefundReason => "The required field, refundReason, is missing."@,
            APIErrorCode::NullRefundRisking => "The required field, refundRiskingPreference, is missing."@,
            APIErrorCode::NullRefundType => "The required field, refundType, is missing."@,
            APIErrorCode::NullRequestInfo => "The required field, requestInfo, is missing."@,
            APIErrorCode::NullRequestReferenceID => "The required field, requestReferenceId, is missing."@,
            APIErrorCode::NullRetainBillingCycle => "The required field, retainBillingCycle, is missing."@,
            APIErrorCode::NullSKU => "The required field, SKU, is missing."@,
            APIErrorCode::NullStorefront => "The required field, storefront, is missing."@,
            APIErrorCode::NullTargetProductID => "The required field, targetProductID, is missing."@,
            APIErrorCode::NullTaxCode => "The required field, taxCode, is missing."@,
            APIErrorCode::NullTransactionId => "The required field, transactionId, is missing."@,
            APIErrorCode::NullVersion => "The required field, version, is missing."@,
            APIErrorCode::OfferPreventsItemMidCycleChange => "An existing offer prevents changes to the item mid-cycle."@,
            APIErrorCode::OneItemNeededInModify => "At least one type of change must be provided in a modify subscription request."@,
            APIErrorCode::OperationNotAllowed => "The operation isn't allowed."@,
            APIErrorCode::PartialSimulateRefundDecline => "If one item has a refundReason value of SIMULATE_REFUND_DECLINE, all items must have a refundReason value of SIMULATE_REFUND_DECLINE."@,
            APIErrorCode::PendingChangesMismatch => "Pending subscription changes must specify a renewalItem, and if there are no pending changes, a renewalItem cannot be specified."@,
            APIErrorCode::PendingRefund => "The transaction has pending refunds."@,
            APIErrorCode::PeriodChangeEffectiveConflict => "A period change at next cycle conflicts with addition at the current period."@,
            APIErrorCode::PeriodChangeImmediateWithEffectiveAtNextBillingCycle => "Period change immediately with effective later."@,
            APIErrorCode::PeriodCountNotPositive => "Period count must be a positive number."@,
            APIErrorCode::PeriodResetWithRetainBillingCycle => "Period reset conflicts with retaining billing cycle."@,
            APIErrorCode::PriceChangeNotSupportedThroughModifyItems => "Changing the price isn't supported as part of a modify items request."@,
            APIErrorCode::ProductAlreadyExists => "Provided SKU is already owned."@,
            APIErrorCode::ProductNotEligible => "The product isn't eligible for the requested operation."@,
            APIErrorCode::ProductNotFound => "Product not found."@,
            APIErrorCode::ProductNotOwned => "The customer doesn't own the product."@,
            APIErrorCode::ProratedOnlyLatestTransaction => "Only requests against the latest transaction can have a PRORATED refundType value."@,
            APIErrorCode::RateLimitExceeded => "Rate limit exceeded."@,
            APIErrorCode::RefundAmountWithoutCustom => "Can't provide the refund amount because the refundType isn't CUSTOM."@,
            APIErrorCode::RemovalAllNotAllowed => "The active subscription must contain at least one item and cannot be completely empty."@,
            APIErrorCode::RemoveItemNotFound => "A product in removeItems wasn't found for the given subscription."@,
            APIErrorCode::RemoveItemsWithoutAddOrChangeItems => "The removeItems object was present without addItems or changeItems."@,
            APIErrorCode::RepeatedRequestReferenceId => "The requestReferenceId was repeated."@,
            APIErrorCode::RevokeOnInactiveSubscription => "Only active subscriptions are revocable."@,
            APIErrorCode::SimulateRefundDeclineOnlyInSandbox => "The type SIMULATE_REFUND_DECLINE is only valid in Sandbox."@,
            APIErrorCode::SKULengthExceeded => "Exceeds the maximum length of the SKU field."@,
            APIErrorCode::StorefrontChange => "The storefront changed."@,
            APIErrorCode::SubscriptionAlreadyActive => "The subscription is already active, and cannot be reactivated or renewed at this time."@,
            APIErrorCode::SubscriptionAlreadyExists => "The subscription already exists."@,
            APIErrorCode::SubscriptionAlreadyMigrated => "The subscription was already migrated."@,
            APIErrorCode::SubscriptionDoesNotExist => "The subscription doesn't exist."@,
            APIErrorCode::SubscriptionNotEligible => "The subscription isn't eligible for the requested changes."@,
            APIErrorCode::TransactionIdNotFound => "Transaction id not found."@,
            APIErrorCode::TransactionNotRefundable => "The transaction is not refundable."@,
            APIErrorCode::TransactionCannotBeRefundedContactSupport => "The transaction can't be refunded; customer can contact Apple Support for assistance."@,
            APIErrorCode::Unauthorized => "Unauthorized."@,
            APIErrorCode::UnexpectedVersion => "The value of version is invalid."@,
        }
    }

    /// The documented message of the error.
    pub fn message(&self) -> (m: &'static str)
        ensures
            m@ == self.message_text(),
    {
        match self {
            APIErrorCode::AlreadyRefunded => "The transaction was already refunded.",
            APIErrorCode::AtLeastOneItem => "When included, provide at least one item in items.",
            APIErrorCode::AtLeastOneOfDisplayNameOrDescription => "Provide either the displayName or a description.",
            APIErrorCode::BillingCycleResetWithEffectiveLater => "Bill cycle reset with effective later.",
            APIErrorCode::ChangeItemNotFound => "The targeted item in changeItems wasn't found.",
            APIErrorCode::DescriptionLengthExceeded => "Exceeds the maximum length of the description field.",
            APIErrorCode::DisplayNameLengthExceeded => "Exceeds the maximum length of the displayName field.",
            APIErrorCode::EmptyAddChangeItems => "The addItems and changeItems entries cannot be empty.",
            APIErrorCode::GeneralInternal => "An unknown error occurred.",
            APIErrorCode::GeneralInternalRetryable => "An unknown error occurred. Please try again.",
            APIErrorCode::InactiveACASub => "The subscription is not active.",
            APIErrorCode::InsufficientFunds => "Insufficient funds for refund.",
            APIErrorCode::InvalidAmount => "The amount is invalid.",
            APIErrorCode::InvalidAppAccountToken => "The appAccountToken field must contain a valid UUID or an empty string.",
            APIErrorCode::InvalidChangeReason => "The change reason is invalid.",
            APIErrorCode::InvalidConsistencyToken => "The consistencyToken value is invalid.",
            APIErrorCode::InvalidCurrency => "The currency value is invalid.",
            APIErrorCode::InvalidDescription => "The description is invalid.",
            APIErrorCode::InvalidDisplayName => "The displayName is invalid.",
            APIErrorCode::InvalidOfferPeriodCount => "The offer periodCount is invalid.",
            APIErrorCode::InvalidOfferPeriod => "The offer period is invalid.",
            APIErrorCode::InvalidOfferPrice => "The subscription offer price is higher than the regular subscription price.",
            APIErrorCode::InvalidOfferReason => "The offer reason is invalid.",
            APIErrorCode::InvalidOperation => "The operation is invalid.",
            APIErrorCode::InvalidPreviousSubscription => "The previous subscription targeted is invalid.",
            APIErrorCode::InvalidPreviousTransactionID => "Previous original transaction id is invalid.",
            APIErrorCode::InvalidProductChanges => "Product changes are invalid.",
            APIErrorCode::InvalidProduct => "The requested product to change doesn't exist.",
            APIErrorCode::InvalidProratedPrice => "The prorated price was invalid.",
            APIErrorCode::InvalidRefundReason => "The refundReason is invalid.",
            APIErrorCode::InvalidRefundType => "The refundType is invalid.",
            APIErrorCode::InvalidRenewalPeriod => "The renewal period is invalid.",
            APIErrorCode::InvalidRenewalPrice => "The renewal price is invalid.",
            APIErrorCode::InvalidRequestReferenceID => "The requestReferenceId value is invalid.",
            APIErrorCode::InvalidSalableDuration => "The salable duration is invalid.",
            APIErrorCode::InvalidSalable => "The targeted salable isn't configured as a generic salable.",
            APIErrorCode::InvalidSignature => "The signature is invalid.",
            APIErrorCode::InvalidSKU => "The SKU was invalid.",
            APIErrorCode::InvalidStorefront => "The storefront value is invalid.",
            APIErrorCode::InvalidTargetProductID => "The targetProductID value is invalid.",
            APIErrorCode::InvalidTaxProductCode => "The taxCode is invalid.",
            APIErrorCode::InvalidTransactionId => "The transactionId is invalid.",
            APIErrorCode::ItemLimitExceeded => "The number of items in subscription exceeds the limit.",
            APIErrorCode::MalformedPayload => "The payload is malformed.",
            APIErrorCode::MisalignedBillingCycle => "The request contains a billing period that doesn't align with the subscription's billing cycle.",
            APIErrorCode::MismatchedStorefront => "The storefronts mismatch.",
            APIErrorCode::MissingPricingConfigForStorefront => "Pricing isn't configured for the storefront.",
            APIErrorCode::MissingUpdatedItemsWithPeriodChange => "All items must be updated on a period change.",
            APIErrorCode::MoreItemsThanAllowed => "More items were provided than allowed.",
            APIErrorCode::MoreOffersThanAllowed => "More offers were provided than allowed.",
            APIErrorCode::MultipleOperationsOnSingleSKU => "Multiple operations on a single SKU isn't allowed.",
            APIErrorCode::MultiplePrices => "Prorated price and offer price are mutually exclusive.",
            APIErrorCode::NegativePrice => "The price field must contain a positive number.",
            APIErrorCode::NegativeProratedPrice => "Exceeds the maximum length of the price field.",
            APIErrorCode::NegativeRefundAmount => "The refundAmount must be a positive number.",
            APIErrorCode::NullAdvancedCommerceData => "The required field, advancedCommerceData, was null.",
            APIErrorCode::NullCurrency => "The required field, currency, is missing.",
            APIErrorCode::NullCurrentSKU => "The required field, currentSKU, is missing.",
            APIErrorCode::NullDescription => "The required field, description, is missing.",
            APIErrorCode::NullDescriptors => "The required field, descriptors, is missing.",
            APIErrorCode::NullDisplayName => "The required field, displayName, is missing.",
            APIErrorCode::NullEffective => "The required field, effective, is missing.",
            APIErrorCode::NullItem => "The required field, item, is missing.",
            APIErrorCode::NullItems => "The required field, items, is missing.",
            APIErrorCode::NullNewSKU => "The required field, SKU in changeItems, is missing.",
            APIErrorCode::NullOfferPeriod => "The required field, offer period, is missing.",
            APIErrorCode::NullPeriodCount => "The required field, periodCount, is missing.",
            APIErrorCode::NullPeriod => "The required field, period, is missing.",
            APIErrorCode::NullPrice => "The required field, price, is missing.",
            APIErrorCode::NullReason => "The required field, reason, is missing.",
            APIErrorCode::NullRefundAmount => "The refundAmount value is invalid.",
            APIErrorCode::NullRefundReason => "The required field, refundReason, is missing.",
            APIErrorCode::NullRefundRisking => "The required field, refundRiskingPreference, is missing.",
            APIErrorCode::NullRefundType => "The required field, refundType, is missing.",
            APIErrorCode::NullRequestInfo => "The required field, requestInfo, is missing.",
            APIErrorCode::NullRequestReferenceID => "The required field, requestReferenceId, is missing.",
            APIErrorCode::NullRetainBillingCycle => "The required field, retainBillingCycle, is missing.",
            APIErrorCode::NullSKU => "The required field, SKU, is missing.",
            APIErrorCode::NullStorefront => "The required field, storefront, is missing.",
            APIErrorCode::NullTargetProductID => "The required field, targetProductID, is missing.",
            APIErrorCode::NullTaxCode => "The required field, taxCode, is missing.",
            APIErrorCode::NullTransactionId => "The required field, transactionId, is missing.",
            APIErrorCode::NullVersion => "The required field, version, is missing.",
            APIErrorCode::OfferPreventsItemMidCycleChange => "An existing offer prevents changes to the item mid-cycle.",
            APIErrorCode::OneItemNeededInModify => "At least one type of change must be provided in a modify subscription request.",
            APIErrorCode::OperationNotAllowed => "The operation isn't allowed.",
            APIErrorCode::PartialSimulateRefundDecline => "If one item has a refundReason value of SIMULATE_REFUND_DECLINE, all items must have a refundReason value of SIMULATE_REFUND_DECLINE.",
            APIErrorCode::PendingChangesMismatch => "Pending subscription changes must specify a renewalItem, and if there are no pending changes, a renewalItem cannot be specified.",
            APIErrorCode::PendingRefund => "The transaction has pending refunds.",
            APIErrorCode::PeriodChangeEffectiveConflict => "A period change at next cycle conflicts with addition at the current period.",
            APIErrorCode::PeriodChangeImmediateWithEffectiveAtNextBillingCycle => "Period change immediately with effective later.",
            APIErrorCode::PeriodCountNotPositive => "Period count must be a positive number.",
            APIErrorCode::PeriodResetWithRetainBillingCycle => "Period reset conflicts with retaining billing cycle.",
            APIErrorCode::PriceChangeNotSupportedThroughModifyItems => "Changing the price isn't supported as part of a modify items request.",
            APIErrorCode::ProductAlreadyExists => "Provided SKU is already owned.",
            APIErrorCode::ProductNotEligible => "The product isn't eligible for the requested operation.",
            APIErrorCode::ProductNotFound => "Product not found.",
            APIErrorCode::ProductNotOwned => "The customer doesn't own the product.",
            APIErrorCode::ProratedOnlyLatestTransaction => "Only requests against the latest transaction can have a PRORATED refundType value.",
            APIErrorCode::RateLimitExceeded => "Rate limit exceeded.",
            APIErrorCode::RefundAmountWithoutCustom => "Can't provide the refund amount because the refundType isn't CUSTOM.",
            APIErrorCode::RemovalAllNotAllowed => "The active subscription must contain at least one item and cannot be completely empty.",
            APIErrorCode::RemoveItemNotFound => "A product in removeItems wasn't found for the given subscription.",
            APIErrorCode::RemoveItemsWithoutAddOrChangeItems => "The removeItems object was present without addItems or changeItems.",
            APIErrorCode::RepeatedRequestReferenceId => "The requestReferenceId was repeated.",
            APIErrorCode::RevokeOnInactiveSubscription => "Only active subscriptions are revocable.",
            APIErrorCode::SimulateRefundDeclineOnlyInSandbox => "The type SIMULATE_REFUND_DECLINE is only valid in Sandbox.",
            APIErrorCode::SKULengthExceeded => "Exceeds the maximum length of the SKU field.",
            APIErrorCode::StorefrontChange => "The storefront changed.",
            APIErrorCode::SubscriptionAlreadyActive => "The subscription is already active, and cannot be reactivated or renewed at this time.",
            APIErrorCode::SubscriptionAlreadyExists => "The subscription already exists.",
            APIErrorCode::SubscriptionAlreadyMigrated => "The subscription was already migrated.",
            APIErrorCode::SubscriptionDoesNotExist => "The subscription doesn't exist.",
            APIErrorCode::SubscriptionNotEligible => "The subscription isn't eligible for the requested changes.",
            APIErrorCode::TransactionIdNotFound => "Transaction id not found.",
            APIErrorCode::TransactionNotRefundable => "The transaction is not refundable.",
            APIErrorCode::TransactionCannotBeRefundedContactSupport => "The transaction can't be refunded; customer can contact Apple Support for assistance.",
            APIErrorCode::Unauthorized => "Unauthorized.",
            APIErrorCode::UnexpectedVersion => "The value of version is invalid.",
        }
    }
}

} // verus!
