//! Channels and what is in them.

pub mod embed;
pub mod message;

pub use crate::resources::channel::{
    Channel, ChannelId, ChannelKind, EditChannel, Overwrite, OverwriteId, OverwriteIdHelper,
    ThreadMember, ThreadMemberFlags, ThreadMetadata, VideoQualityMode,
};
pub use self::embed::{
    Embed, EmbedAuthor, EmbedField, EmbedFooter, EmbedImage, EmbedProvider, EmbedThumbnail,
    EmbedVideo,
};
pub use self::message::{
    Attachment, AttachmentId, ChannelMention, InteractionKind, Mention, Message, MessageActivity,
    MessageActivityKind, MessageId, MessageInteraction, MessageInteractionId, MessageKind,
    MessageReference, Nonce, Reaction, Sticker, StickerFormat, StickerId, StickerPack,
    StickerPackId,
};
