//! Error codes that the App Store Server API may return for Retention Messaging API requests.
use vstd::prelude::*;

verus! {

/// Error codes that the App Store Server API may return for Retention Messaging API requests.
#[derive(Debug, Copy, Clone, PartialEq, Eq, Hash, Structural)]
pub enum ApiErrorCode {
    /// An error that indicates the product ID parameter is invalid.
    ///
    /// [InvalidProductIdError](https://developer.apple.com/documentation/appstoreserverapi/invalidproductiderror)
    InvalidProductId,

    /// An error that indicates the image that's uploading is invalid.
    ///
    /// [InvalidImageError](https://developer.apple.com/documentation/retentionmessaging/invalidimageerror)
    InvalidImage,

    /// An error that indicates the header text is too long.
    ///
    /// [HeaderTooLongError](https://developer.apple.com/documentation/retentionmessaging/headertoolongerror)
    HeaderTooLong,

    /// An error that indicates the body text is too long.
    ///
    /// [BodyTooLongError](https://developer.apple.com/documentation/retentionmessaging/bodytoolongerror)
    BodyTooLong,

    /// An error that indicates the locale is invalid.
    ///
    /// [InvalidLocaleError](https://developer.apple.com/documentation/retentionmessaging/invalidlocaleerror)
    InvalidLocale,

    /// An error that indicates the alternative text for an image is too long.
    ///
    /// [AltTextTooLongError](https://developer.apple.com/documentation/retentionmessaging/alttexttoolongerror)
    AltTextTooLong,

    /// An error that indicates when you reach the maximum number of uploaded images.
    ///
    /// [MaximumNumberOfImagesReachedError](https://developer.apple.com/documentation/retentionmessaging/maximumnumberofimagesreachederror)
    MaximumNumberOfImagesReached,

    /// An error that indicates when you reach the maximum number of uploaded messages.
    ///
    /// [MaximumNumberOfMessagesReachedError](https://developer.apple.com/documentation/retentionmessaging/maximumnumberofmessagesreachederror)
    MaximumNumberOfMessagesReached,

    /// An error that indicates the message isn't in the approved state, so you can't configure it as a default message.
    ///
    /// [MessageNotApprovedError](https://developer.apple.com/documentation/retentionmessaging/messagenotapprovederror)
    MessageNotApproved,

    /// An error that indicates the image isn't in the approved state, so you can't configure it as part of a default message.
    ///
    /// [ImageNotApprovedError](https://developer.apple.com/documentation/retentionmessaging/imagenotapprovederror)
    ImageNotApproved,

    /// An error that indicates the image is currently in use as part of a message, so you can't delete it.
    ///
    /// [ImageInUseError](https://developer.apple.com/documentation/retentionmessaging/imageinuseerror)
    ImageInUse,

    /// An error that indicates the system can't find the image identifier.
    ///
    /// [ImageNotFoundError](https://developer.apple.com/documentation/retentionmessaging/imagenotfounderror)
    ImageNotFound,

    /// An error that indicates the system can't find the message identifier.
    ///
    /// [MessageNotFoundError](https://developer.apple.com/documentation/retentionmessaging/messagenotfounderror)
    MessageNotFound,

    /// An error that indicates the image identifier already exists.
    ///
    /// [ImageAlreadyExistsError](https://developer.apple.com/documentation/retentionmessaging/imagealreadyexistserror)
    ImageAlreadyExists,

    /// An error that indicates the message identifier already exists.
    ///
    /// [MessageAlreadyExistsError](https://developer.apple.com/documentation/retentionmessaging/messagealreadyexistserror)
    MessageAlreadyExists,

    /// An error that indicates that the request exceeded the rate limit.
    ///
    /// [RateLimitExceededError](https://developer.apple.com/documentation/appstoreserverapi/ratelimitexceedederror)
    RateLimitExceeded,

    /// A general internal error occurred.
    ///
    /// [GeneralInternalError](https://developer.apple.com/documentation/retentionmessaging/generalinternalerror)
    GeneralInternalError,

    /// An unknown error
    Unknown,
}

impl ApiErrorCode {
    /// The numeric error code the API uses for this variant.
    pub open spec fn error_code(self) -> i64 {
        match self {
            ApiErrorCode::InvalidProductId => 4000023i64,
            ApiErrorCode::InvalidImage => 4000161i64,
            ApiErrorCode::HeaderTooLong => 4000162i64,
            ApiErrorCode::BodyTooLong => 4000163i64,
            ApiErrorCode::InvalidLocale => 4000164i64,
            ApiErrorCode::AltTextTooLong => 4000175i64,
            ApiErrorCode::MaximumNumberOfImagesReached => 4030014i64,
            ApiErrorCode::MaximumNumberOfMessagesReached => 4030016i64,
            ApiErrorCode::MessageNotApproved => 4030017i64,
            ApiErrorCode::ImageNotApproved => 4030018i64,
            ApiErrorCode::ImageInUse => 4030019i64,
            ApiErrorCode::ImageNotFound => 4040014i64,
            ApiErrorCode::MessageNotFound => 4040015i64,
            ApiErrorCode::ImageAlreadyExists => 4090000i64,
            ApiErrorCode::MessageAlreadyExists => 4090001i64,
            ApiErrorCode::RateLimitExceeded => 4290000i64,
            ApiErrorCode::GeneralInternalError => 5000000i64,
            ApiErrorCode::Unknown => -1i64,
        }
    }

    /// The numeric error code the API uses for this variant.
    pub fn code(&self) -> (c: i64)
        ensures
            c == self.error_code(),
    {
        match self {
            ApiErrorCode::InvalidProductId => 4000023,
            ApiErrorCode::InvalidImage => 4000161,
            ApiErrorCode::HeaderTooLong => 4000162,
            ApiErrorCode::BodyTooLong => 4000163,
            ApiErrorCode::InvalidLocale => 4000164,
            ApiErrorCode::AltTextTooLong => 4000175,
            ApiErrorCode::MaximumNumberOfImagesReached => 4030014,
            ApiErrorCode::MaximumNumberOfMessagesReached => 4030016,
            ApiErrorCode::MessageNotApproved => 4030017,
            ApiErrorCode::ImageNotApproved => 4030018,
            ApiErrorCode::ImageInUse => 4030019,
            ApiErrorCode::ImageNotFound => 4040014,
            ApiErrorCode::MessageNotFound => 4040015,
            ApiErrorCode::ImageAlreadyExists => 4090000,
            ApiErrorCode::MessageAlreadyExists => 4090001,
            ApiErrorCode::RateLimitExceeded => 4290000,
            ApiErrorCode::GeneralInternalError => 5000000,
            ApiErrorCode::Unknown => -1,
        }
    }

    /// The variant that stands for codes outside the catalogue.
    pub fn unknown() -> (e: Self)
        ensures
            e == ApiErrorCode::Unknown,
    {
        ApiErrorCode::Unknown
    }
}

} // verus!
