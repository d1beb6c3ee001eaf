//! Embeds: the cards shown under a message.

use vstd::prelude::*;

use crate::borrow::{opt_ref, opt_slice, opt_str, same_items, same_text, same_value};
use crate::time::DateTime;

verus! {

/// The line at the foot of an embed.
#[derive(Debug, Clone)]
pub struct EmbedFooter {
    pub text: String,
    pub icon_url: Option<String>,
    pub proxy_icon_url: Option<String>,
}

impl EmbedFooter {
    pub fn text(&self) -> (r: &str)
        ensures
            r@ == self.text@,
    {
        self.text.as_str()
    }

    pub fn icon_url(&self) -> (r: Option<&str>)
        ensures
            same_text(r, self.icon_url),
    {
        opt_str(&self.icon_url)
    }

    pub fn proxy_icon_url(&self) -> (r: Option<&str>)
        ensures
            same_text(r, self.proxy_icon_url),
    {
        opt_str(&self.proxy_icon_url)
    }
}

/// The image of an embed.
#[derive(Debug, Clone)]
pub struct EmbedImage {
    pub url: Option<String>,
    pub proxy_url: Option<String>,
    pub height: Option<u64>,
    pub width: Option<u64>,
}

impl EmbedImage {
    pub fn url(&self) -> (r: Option<&str>)
        ensures
            same_text(r, self.url),
    {
        opt_str(&self.url)
    }

    pub fn proxy_url(&self) -> (r: Option<&str>)
        ensures
            same_text(r, self.proxy_url),
    {
        opt_str(&self.proxy_url)
    }

    pub fn height(&self) -> (r: Option<u64>)
        ensures
            r == self.height,
    {
        self.height
    }

    pub fn width(&self) -> (r: Option<u64>)
        ensures
            r == self.width,
    {
        self.width
    }
}

/// The small image of an embed.
#[derive(Debug, Clone)]
pub struct EmbedThumbnail {
    pub url: Option<String>,
    pub proxy_url: Option<String>,
    pub height: Option<u64>,
    pub width: Option<u64>,
}

impl EmbedThumbnail {
    pub fn url(&self) -> (r: Option<&str>)
        ensures
            same_text(r, self.url),
    {
        opt_str(&self.url)
    }

    pub fn proxy_url(&self) -> (r: Option<&str>)
        ensures
            same_text(r, self.proxy_url),
    {
        opt_str(&self.proxy_url)
    }

    pub fn height(&self) -> (r: Option<u64>)
        ensures
            r == self.height,
    {
        self.height
    }

    pub fn width(&self) -> (r: Option<u64>)
        ensures
            r == self.width,
    {
        self.width
    }
}

/// The video of an embed.
#[derive(Debug, Clone)]
pub struct EmbedVideo {
    pub url: Option<String>,
    pub proxy_url: Option<String>,
    pub height: Option<u64>,
    pub width: Option<u64>,
}

impl EmbedVideo {
    pub fn url(&self) -> (r: Option<&str>)
        ensures
            same_text(r, self.url),
    {
        opt_str(&self.url)
    }

    pub fn proxy_url(&self) -> (r: Option<&str>)
        ensures
            same_text(r, self.proxy_url),
    {
        opt_str(&self.proxy_url)
    }

    pub fn height(&self) -> (r: Option<u64>)
        ensures
            r == self.height,
    {
        self.height
    }

    pub fn width(&self) -> (r: Option<u64>)
        ensures
            r == self.width,
    {
        self.width
    }
}

/// The site that an embed comes from.
#[derive(Debug, Clone)]
pub struct EmbedProvider {
    pub name: Option<String>,
    pub url: Option<String>,
}

impl EmbedProvider {
    pub fn name(&self) -> (r: Option<&str>)
        ensures
            same_text(r, self.name),
    {
        opt_str(&self.name)
    }

    pub fn url(&self) -> (r: Option<&str>)
        ensures
            same_text(r, self.url),
    {
        opt_str(&self.url)
    }
}

/// The author named on an embed.
#[derive(Debug, Clone)]
pub struct EmbedAuthor {
    pub name: Option<String>,
    pub url: Option<String>,
    pub icon_url: Option<String>,
    pub proxy_icon_url: Option<String>,
}

impl EmbedAuthor {
    pub fn name(&self) -> (r: Option<&str>)
        ensures
            same_text(r, self.name),
    {
        opt_str(&self.name)
    }

    pub fn url(&self) -> (r: Option<&str>)
        ensures
            same_text(r, self.url),
    {
        opt_str(&self.url)
    }

    pub fn icon_url(&self) -> (r: Option<&str>)
        ensures
            same_text(r, self.icon_url),
    {
        opt_str(&self.icon_url)
    }

    pub fn proxy_icon_url(&self) -> (r: Option<&str>)
        ensures
            same_text(r, self.proxy_icon_url),
    {
        opt_str(&self.proxy_icon_url)
    }
}

/// A named value on an embed.
#[derive(Debug, Clone)]
pub struct EmbedField {
    pub name: String,
    pub value: String,
    pub inline: Option<bool>,
}

impl EmbedField {
    pub fn name(&self) -> (r: &str)
        ensures
            r@ == self.name@,
    {
        self.name.as_str()
    }

    pub fn value(&self) -> (r: &str)
        ensures
            r@ == self.value@,
    {
        self.value.as_str()
    }

    pub fn inline(&self) -> (r: Option<bool>)
        ensures
            r == self.inline,
    {
        self.inline
    }
}

/// A card shown under a message.
#[derive(Debug, Clone)]
pub struct Embed {
    pub title: Option<String>,
    pub kind: Option<String>,
    pub description: Option<String>,
    pub url: Option<String>,
    pub timestamp: Option<DateTime>,
    pub color: Option<u64>,
    pub footer: Option<EmbedFooter>,
    pub image: Option<EmbedImage>,
    pub thumbnail: Option<EmbedThumbnail>,
    pub video: Option<EmbedVideo>,
    pub provider: Option<EmbedProvider>,
    pub author: Option<EmbedAuthor>,
    pub fields: Option<Vec<EmbedField>>,
}

impl Embed {
    pub fn title(&self) -> (r: Option<&str>)
        ensures
            same_text(r, self.title),
    {
        opt_str(&self.title)
    }

    pub fn kind(&self) -> (r: Option<&str>)
        ensures
            same_text(r, self.kind),
    {
        opt_str(&self.kind)
    }

    pub fn description(&self) -> (r: Option<&str>)
        ensures
            same_text(r, self.description),
    {
        opt_str(&self.description)
    }

    pub fn url(&self) -> (r: Option<&str>)
        ensures
            same_text(r, self.url),
    {
        opt_str(&self.url)
    }

    pub fn timestamp(&self) -> (r: Option<DateTime>)
        ensures
            r == self.timestamp,
    {
        self.timestamp
    }

    pub fn color(&self) -> (r: Option<u64>)
        ensures
            r == self.color,
    {
        self.color
    }

    pub fn footer(&self) -> (r: Option<&EmbedFooter>)
        ensures
            same_value(r, self.footer),
    {
        opt_ref(&self.footer)
    }

    pub fn image(&self) -> (r: Option<&EmbedImage>)
        ensures
            same_value(r, self.image),
    {
        opt_ref(&self.image)
    }

    pub fn thumbnail(&self) -> (r: Option<&EmbedThumbnail>)
        ensures
            same_value(r, self.thumbnail),
    {
        opt_ref(&self.thumbnail)
    }

    pub fn video(&self) -> (r: Option<&EmbedVideo>)
        ensures
            same_value(r, self.video),
    {
        opt_ref(&self.video)
    }

    pub fn provider(&self) -> (r: Option<&EmbedProvider>)
        ensures
            same_value(r, self.provider),
    {
        opt_ref(&self.provider)
    }

    pub fn author(&self) -> (r: Option<&EmbedAuthor>)
        ensures
            same_value(r, self.author),
    {
        opt_ref(&self.author)
    }

    pub fn fields(&self) -> (r: Option<&[EmbedField]>)
        ensures
            same_items(r, self.fields),
    {
        opt_slice(&self.fields)
    }
}

} // verus!
