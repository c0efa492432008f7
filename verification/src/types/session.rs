//! The signal bundle of a session and the fingerprint computed from it.

use vstd::prelude::*;
use crate::encoding::{is_hex_digest, is_lower_hex_char, HEX_DIGEST_LEN};
use crate::text::option_text;
use crate::types::behavioral::BehavioralSignals;
use crate::types::browser::{BrowserSignals, BrowserSignalsView};
use crate::types::network::{NetworkSignals, NetworkSignalsView};

verus! {

/// Highest confidence, in hundredths: certainty.
pub const FULL_CONFIDENCE: u32 = 100;

/// The signals of one session, as declared by the client and observed by
/// the server, merged before fingerprinting.
#[derive(Debug, Clone, PartialEq)]
pub struct SignalBundle {
    /// Network-layer signals.
    pub network: NetworkSignals,
    /// Browser-environment signals.
    pub browser: BrowserSignals,
    /// Behavioural signals.
    pub behavioral: BehavioralSignals,
}

/// Mathematical view of the parts of a `SignalBundle` that identify a
/// browser.
pub struct SignalBundleView {
    pub network: NetworkSignalsView,
    pub browser: BrowserSignalsView,
}

impl View for SignalBundle {
    type V = SignalBundleView;

    open spec fn view(&self) -> SignalBundleView {
        SignalBundleView { network: self.network@, browser: self.browser@ }
    }
}

/// The hash of each signal that makes up a fingerprint; `None` where the
/// signal was absent.
#[derive(Debug, PartialEq)]
pub struct FingerprintComponents {
    /// Canvas fingerprint hash.
    pub canvas: Option<String>,
    /// WebGL fingerprint hash.
    pub webgl: Option<String>,
    /// Audio fingerprint hash.
    pub audio: Option<String>,
    /// Hash of the font list.
    pub fonts: Option<String>,
    /// Hash of the plugin list.
    pub plugins: Option<String>,
    /// Hash of the screen configuration.
    pub screen: Option<String>,
    /// Hash of the network signals.
    pub network: Option<String>,
}

/// Mathematical view of `FingerprintComponents`.
pub struct ComponentsView {
    pub canvas: Option<Seq<char>>,
    pub webgl: Option<Seq<char>>,
    pub audio: Option<Seq<char>>,
    pub fonts: Option<Seq<char>>,
    pub plugins: Option<Seq<char>>,
    pub screen: Option<Seq<char>>,
    pub network: Option<Seq<char>>,
}

impl View for FingerprintComponents {
    type V = ComponentsView;

    open spec fn view(&self) -> ComponentsView {
        ComponentsView {
            canvas: option_text(self.canvas),
            webgl: option_text(self.webgl),
            audio: option_text(self.audio),
            fonts: option_text(self.fonts),
            plugins: option_text(self.plugins),
            screen: option_text(self.screen),
            network: option_text(self.network),
        }
    }
}

impl Clone for FingerprintComponents {
    fn clone(&self) -> (copy: FingerprintComponents)
        ensures
            copy@ == self@,
    {
        FingerprintComponents {
            canvas: self.canvas.clone(),
            webgl: self.webgl.clone(),
            audio: self.audio.clone(),
            fonts: self.fonts.clone(),
            plugins: self.plugins.clone(),
            screen: self.screen.clone(),
            network: self.network.clone(),
        }
    }
}

impl Default for FingerprintComponents {
    /// Components with every signal absent.
    fn default() -> (components: FingerprintComponents)
        ensures
            components@ == (ComponentsView {
                canvas: None,
                webgl: None,
                audio: None,
                fonts: None,
                plugins: None,
                screen: None,
                network: None,
            }),
    {
        FingerprintComponents {
            canvas: None,
            webgl: None,
            audio: None,
            fonts: None,
            plugins: None,
            screen: None,
            network: None,
        }
    }
}

/// Whether a text is a fingerprint hash: a SHA-256 digest in hexadecimal,
/// which is exactly 64 lower-case hexadecimal characters.
pub open spec fn valid_fingerprint_hash(hash: Seq<char>) -> bool {
    is_hex_digest(hash)
}

/// Checks that a text is exactly 64 lower-case hexadecimal characters.
pub fn is_valid_fingerprint_hash(hash: &str) -> (valid: bool)
    ensures
        valid == valid_fingerprint_hash(hash@),
{
    if hash.unicode_len() != HEX_DIGEST_LEN {
        return false;
    }
    let mut valid = true;
    for c in it: hash.chars()
        invariant
            it.seq() == hash@,
            valid == (forall|i: int| 0 <= i < it.index() ==> is_lower_hex_char(#[trigger] hash@[i])),
    {
        if !(('0' <= c && c <= '9') || ('a' <= c && c <= 'f')) {
            valid = false;
        }
    }
    valid
}

/// The composite fingerprint of a browser. The hash is always 64 lower-case
/// hexadecimal characters and the confidence, counted in hundredths, is at
/// most 100. A fingerprint does not change once it is built.
#[derive(Debug, PartialEq)]
pub struct Fingerprint {
    hash: String,
    components: FingerprintComponents,
    confidence: u32,
}

/// Mathematical view of a `Fingerprint`.
pub struct FingerprintView {
    pub hash: Seq<char>,
    pub components: ComponentsView,
    /// Confidence in hundredths, from 0 to 100.
    pub confidence: nat,
}

impl View for Fingerprint {
    type V = FingerprintView;

    closed spec fn view(&self) -> FingerprintView {
        FingerprintView {
            hash: self.hash@,
            components: self.components@,
            confidence: self.confidence as nat,
        }
    }
}

impl Clone for Fingerprint {
    fn clone(&self) -> (copy: Fingerprint)
        ensures
            copy@ == self@,
    {
        proof {
            use_type_invariant(self);
        }
        Fingerprint {
            hash: self.hash.clone(),
            components: self.components.clone(),
            confidence: self.confidence,
        }
    }
}

impl Fingerprint {
    #[verifier::type_invariant]
    spec fn well_formed(self) -> bool {
        valid_fingerprint_hash(self.hash@) && self.confidence <= FULL_CONFIDENCE
    }

    /// Builds a fingerprint. Reports `None`, and never fails otherwise, where
    /// the hash is not 64 lower-case hexadecimal characters or the
    /// confidence, in hundredths, is above 100.
    pub fn new(hash: String, components: FingerprintComponents, confidence: u32) -> (fingerprint:
        Option<Fingerprint>)
        ensures
            fingerprint is Some <==> valid_fingerprint_hash(hash@) && confidence
                <= FULL_CONFIDENCE,
            fingerprint matches Some(f) ==> f@ == (FingerprintView {
                hash: hash@,
                components: components@,
                confidence: confidence as nat,
            }),
    {
        if !is_valid_fingerprint_hash(hash.as_str()) {
            return None;
        }
        if confidence > FULL_CONFIDENCE {
            return None;
        }
        Some(Fingerprint { hash, components, confidence })
    }

    /// The composite hash: 64 lower-case hexadecimal characters.
    pub fn hash(&self) -> (hash: &String)
        ensures
            hash@ == self@.hash,
            valid_fingerprint_hash(hash@),
    {
        proof {
            use_type_invariant(self);
        }
        &self.hash
    }

    /// The component hashes that the fingerprint was built from.
    pub fn components(&self) -> (components: &FingerprintComponents)
        ensures
            components@ == self@.components,
    {
        &self.components
    }

    /// The confidence in hundredths, from 0 (nothing observed) to 100.
    pub fn confidence(&self) -> (confidence: u32)
        ensures
            confidence == self@.confidence,
            confidence <= FULL_CONFIDENCE,
    {
        proof {
            use_type_invariant(self);
        }
        self.confidence
    }
}

} // verus!
