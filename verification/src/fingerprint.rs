//! Fingerprint synthesis: a deterministic composite hash of the signals of a
//! browser, with a confidence score that says how much of them was seen.
//!
//! Component hashes use BLAKE3, the composite hash SHA-256. Both are fixed:
//! to change either makes stored fingerprints incomparable with new ones.
//!
//! What a component digest takes in determines the signal: it begins with
//! a byte for the kind of signal, and every text in it stands in a frame
//! with its length. So signals that differ are digested from bytes that
//! differ, and their hashes differ unless the digest itself collides.

use vstd::prelude::*;
use vstd::bytes::{
    lemma_auto_spec_u32_to_from_le_bytes,
    spec_u32_from_le_bytes,
    spec_u32_to_le_bytes,
    u32_to_le_bytes,
};
use crate::digest::{blake3, blake3_digest, hex_encode, sha256, sha256_digest};
use crate::encoding::{
    append_bytes,
    append_framed_text,
    append_present,
    append_tagged_text,
    fits_frame,
    framed_text,
    framed_texts,
    hex_lower,
    lemma_frame_split,
    lemma_framed_texts_injective,
    lemma_framed_texts_push,
    lemma_hex_lower_injective,
    lemma_hex_lower_shape,
    present_bytes,
    tagged_text,
    text_bytes,
    texts_fit,
};
use crate::error::ScrybeError;
use crate::text::{lemma_text_bytes_injective, texts};
use crate::types::browser::ScreenInfo;
use crate::types::network::{NetworkSignals, NetworkSignalsView};
use crate::types::session::{
    valid_fingerprint_hash,
    ComponentsView,
    Fingerprint,
    FingerprintComponents,
    FingerprintView,
    SignalBundle,
    SignalBundleView,
    FULL_CONFIDENCE,
};

verus! {

/// Weight of the canvas hash in the confidence score, in hundredths.
pub const WEIGHT_CANVAS: u32 = 25;

/// Weight of the WebGL hash, in hundredths.
pub const WEIGHT_WEBGL: u32 = 25;

/// Weight of the audio hash, in hundredths.
pub const WEIGHT_AUDIO: u32 = 15;

/// Weight of the font list, in hundredths.
pub const WEIGHT_FONTS: u32 = 15;

/// Weight of the plugin list, in hundredths.
pub const WEIGHT_PLUGINS: u32 = 10;

/// Weight of the screen configuration, in hundredths.
pub const WEIGHT_SCREEN: u32 = 5;

/// Weight of the network signals, in hundredths.
pub const WEIGHT_NETWORK: u32 = 5;

/// Kind byte of a font list in a digest input.
pub const KIND_FONTS: u8 = 1;

/// Kind byte of a plugin list in a digest input.
pub const KIND_PLUGINS: u8 = 2;

/// Kind byte of a screen configuration in a digest input.
pub const KIND_SCREEN: u8 = 3;

/// Kind byte of the network signals in a digest input.
pub const KIND_NETWORK: u8 = 4;

/// Tag of the JA3 fingerprint among the network signals.
pub const FIELD_JA3: u8 = 1;

/// Tag of the JA4 fingerprint among the network signals.
pub const FIELD_JA4: u8 = 2;

/// The bytes that stand for an ordered list of texts: the kind of list,
/// then each text in a frame, in the order given. The list is not sorted
/// first, so the order of its items counts.
pub open spec fn list_bytes(kind: u8, items: Seq<Seq<char>>) -> Seq<u8> {
    seq![kind] + framed_texts(items)
}

/// The hash of an ordered list of texts: BLAKE3 over its bytes, in
/// hexadecimal.
pub open spec fn list_hash(kind: u8, items: Seq<Seq<char>>) -> Seq<char> {
    hex_lower(blake3(list_bytes(kind, items)))
}

/// The bytes that stand for a screen: the kind byte, then width, height,
/// colour depth and pixel ratio in this order, each in little-endian bytes
/// of its fixed width.
pub open spec fn screen_bytes(screen: ScreenInfo) -> Seq<u8> {
    seq![KIND_SCREEN] + spec_u32_to_le_bytes(screen.width) + spec_u32_to_le_bytes(screen.height)
        + seq![screen.color_depth] + spec_u32_to_le_bytes(screen.pixel_ratio_bits)
}

/// The hash of a screen configuration.
pub open spec fn screen_hash(screen: ScreenInfo) -> Seq<char> {
    hex_lower(blake3(screen_bytes(screen)))
}

/// The bytes that stand for the network signals: the kind byte, the address
/// as text in a frame, then the JA3 and the JA4 fingerprint where present,
/// each behind its tag and in a frame. An absent fingerprint adds nothing,
/// not even an empty placeholder.
pub open spec fn network_bytes(network: NetworkSignalsView) -> Seq<u8> {
    seq![KIND_NETWORK] + framed_text(network.ip) + tagged_text(FIELD_JA3, network.ja3)
        + tagged_text(FIELD_JA4, network.ja4)
}

/// The hash of the network signals.
pub open spec fn network_hash(network: NetworkSignalsView) -> Seq<char> {
    hex_lower(blake3(network_bytes(network)))
}

/// The component of a list signal: absent for an empty list, the hash of
/// the list otherwise.
pub open spec fn list_component(kind: u8, items: Seq<Seq<char>>) -> Option<Seq<char>> {
    if items.len() == 0 {
        None
    } else {
        Some(list_hash(kind, items))
    }
}

/// The component of the screen: absent where no screen was reported.
pub open spec fn screen_component(screen: Option<ScreenInfo>) -> Option<Seq<char>> {
    match screen {
        Some(s) => Some(screen_hash(s)),
        None => None,
    }
}

/// The component hashes of a bundle. A component is absent where its signal
/// is: a client-side hash that was not supplied, an empty font or plugin
/// list, a screen that was not reported. The network signals are always
/// there, as every request has an address.
pub open spec fn components_of(bundle: SignalBundleView) -> ComponentsView {
    ComponentsView {
        canvas: bundle.browser.canvas_hash,
        webgl: bundle.browser.webgl_hash,
        audio: bundle.browser.audio_hash,
        fonts: list_component(KIND_FONTS, bundle.browser.fonts),
        plugins: list_component(KIND_PLUGINS, bundle.browser.plugins),
        screen: screen_component(bundle.browser.screen),
        network: Some(network_hash(bundle.network)),
    }
}

/// What the composite hash digests: the component hashes that are present,
/// in the fixed order canvas, WebGL, audio, fonts, plugins, screen, network.
/// An absent component is left out entirely.
pub open spec fn composite_input(components: ComponentsView) -> Seq<u8> {
    present_bytes(components.canvas) + present_bytes(components.webgl) + present_bytes(
        components.audio,
    ) + present_bytes(components.fonts) + present_bytes(components.plugins) + present_bytes(
        components.screen,
    ) + present_bytes(components.network)
}

/// The composite hash of a set of components: SHA-256 in lower-case
/// hexadecimal.
pub open spec fn composite_hash(components: ComponentsView) -> Seq<char> {
    hex_lower(sha256(composite_input(components)))
}

/// A weight where the component is present, nothing where it is absent.
pub open spec fn weight_if(present: bool, weight: u32) -> nat {
    if present {
        weight as nat
    } else {
        0
    }
}

/// The confidence score, in hundredths: the sum of the weights of the
/// components that are present.
pub open spec fn confidence_of(components: ComponentsView) -> nat {
    weight_if(components.canvas is Some, WEIGHT_CANVAS) + weight_if(
        components.webgl is Some,
        WEIGHT_WEBGL,
    ) + weight_if(components.audio is Some, WEIGHT_AUDIO) + weight_if(
        components.fonts is Some,
        WEIGHT_FONTS,
    ) + weight_if(components.plugins is Some, WEIGHT_PLUGINS) + weight_if(
        components.screen is Some,
        WEIGHT_SCREEN,
    ) + weight_if(components.network is Some, WEIGHT_NETWORK)
}

/// The fingerprint of a bundle.
pub open spec fn fingerprint_of(bundle: SignalBundleView) -> FingerprintView {
    FingerprintView {
        hash: composite_hash(components_of(bundle)),
        components: components_of(bundle),
        confidence: confidence_of(components_of(bundle)),
    }
}

/// Whether every component that is present in `fewer` is present in `more`.
pub open spec fn presence_grows(fewer: ComponentsView, more: ComponentsView) -> bool {
    &&& fewer.canvas is Some ==> more.canvas is Some
    &&& fewer.webgl is Some ==> more.webgl is Some
    &&& fewer.audio is Some ==> more.audio is Some
    &&& fewer.fonts is Some ==> more.fonts is Some
    &&& fewer.plugins is Some ==> more.plugins is Some
    &&& fewer.screen is Some ==> more.screen is Some
    &&& fewer.network is Some ==> more.network is Some
}

/// Generates composite fingerprints from the signals of a session.
pub struct FingerprintGenerator;

impl FingerprintGenerator {
    /// Computes the fingerprint of a bundle. A signal that is absent (a
    /// client-side hash not supplied, an empty font or plugin list, no
    /// screen) gives no component, adds nothing to the composite hash and
    /// nothing to the confidence. The result depends on the bundle alone,
    /// and the computation always succeeds: the hash it builds
    /// is well-formed and the confidence within range, so the constructor's
    /// refusal, which would be reported as an enrichment error, cannot occur.
    pub fn generate(bundle: &SignalBundle) -> (result: Result<Fingerprint, ScrybeError>)
        ensures
            result matches Ok(fingerprint) && fingerprint@ == fingerprint_of(bundle@),
    {
        let components = FingerprintComponents {
            canvas: bundle.browser.canvas_hash.clone(),
            webgl: bundle.browser.webgl_hash.clone(),
            audio: bundle.browser.audio_hash.clone(),
            fonts: if bundle.browser.fonts.len() == 0 {
                None
            } else {
                Some(Self::hash_fonts(bundle.browser.fonts.as_slice()))
            },
            plugins: if bundle.browser.plugins.len() == 0 {
                None
            } else {
                Some(Self::hash_plugins(bundle.browser.plugins.as_slice()))
            },
            screen: match &bundle.browser.screen {
                Some(screen) => Some(Self::hash_screen(screen)),
                None => None,
            },
            network: Some(Self::hash_network(&bundle.network)),
        };
        let composite = Self::generate_composite_hash(&components);
        let confidence: u32 = Self::calculate_confidence(&components);
        match Fingerprint::new(composite, components, confidence) {
            Some(fingerprint) => Ok(fingerprint),
            None => Err(ScrybeError::enrichment_error("fingerprint", "invalid hash generated")),
        }
    }

    /// Computes the composite hash of a set of components: always 64
    /// lower-case hexadecimal characters.
    pub fn generate_composite_hash(components: &FingerprintComponents) -> (hash: String)
        ensures
            hash@ == composite_hash(components@),
            valid_fingerprint_hash(hash@),
    {
        let mut input: Vec<u8> = Vec::new();
        append_present(&mut input, &components.canvas);
        append_present(&mut input, &components.webgl);
        append_present(&mut input, &components.audio);
        append_present(&mut input, &components.fonts);
        append_present(&mut input, &components.plugins);
        append_present(&mut input, &components.screen);
        append_present(&mut input, &components.network);
        let digest = sha256_digest(input.as_slice());
        proof {
            lemma_hex_lower_shape(digest@);
        }
        hex_encode(digest.as_slice())
    }

    /// Hashes a font list, in the order given. Lists that differ in an
    /// item, in the number of items or in their order are hashed from
    /// different bytes.
    pub fn hash_fonts(fonts: &[String]) -> (hash: String)
        ensures
            hash@ == list_hash(KIND_FONTS, texts(fonts@)),
    {
        hash_list(KIND_FONTS, fonts)
    }

    /// Hashes a plugin list, in the order given. Lists that differ in an
    /// item, in the number of items or in their order are hashed from
    /// different bytes.
    pub fn hash_plugins(plugins: &[String]) -> (hash: String)
        ensures
            hash@ == list_hash(KIND_PLUGINS, texts(plugins@)),
    {
        hash_list(KIND_PLUGINS, plugins)
    }

    /// Hashes a screen configuration.
    pub fn hash_screen(screen: &ScreenInfo) -> (hash: String)
        ensures
            hash@ == screen_hash(*screen),
    {
        let mut input: Vec<u8> = Vec::new();
        input.push(KIND_SCREEN);
        let width = u32_to_le_bytes(screen.width);
        append_bytes(&mut input, width.as_slice());
        let height = u32_to_le_bytes(screen.height);
        append_bytes(&mut input, height.as_slice());
        input.push(screen.color_depth);
        let ratio = u32_to_le_bytes(screen.pixel_ratio_bits);
        append_bytes(&mut input, ratio.as_slice());
        assert(input@ =~= screen_bytes(*screen));
        let digest = blake3_digest(input.as_slice());
        hex_encode(digest.as_slice())
    }

    /// Hashes the network signals.
    pub fn hash_network(network: &NetworkSignals) -> (hash: String)
        ensures
            hash@ == network_hash(network@),
    {
        let mut input: Vec<u8> = Vec::new();
        input.push(KIND_NETWORK);
        append_framed_text(&mut input, network.ip.as_str());
        append_tagged_text(&mut input, FIELD_JA3, &network.ja3);
        append_tagged_text(&mut input, FIELD_JA4, &network.ja4);
        assert(input@ =~= network_bytes(network@));
        let digest = blake3_digest(input.as_slice());
        hex_encode(digest.as_slice())
    }

    /// Computes the confidence score, in hundredths, from the components
    /// that are present. Absent components add nothing.
    pub fn calculate_confidence(components: &FingerprintComponents) -> (confidence: u32)
        ensures
            confidence == confidence_of(components@),
            confidence <= FULL_CONFIDENCE,
    {
        let mut total: u32 = 0;
        if components.canvas.is_some() {
            total = total + WEIGHT_CANVAS;
        }
        if components.webgl.is_some() {
            total = total + WEIGHT_WEBGL;
        }
        if components.audio.is_some() {
            total = total + WEIGHT_AUDIO;
        }
        if components.fonts.is_some() {
            total = total + WEIGHT_FONTS;
        }
        if components.plugins.is_some() {
            total = total + WEIGHT_PLUGINS;
        }
        if components.screen.is_some() {
            total = total + WEIGHT_SCREEN;
        }
        if components.network.is_some() {
            total = total + WEIGHT_NETWORK;
        }
        total
    }
}

/// Hashes a list of texts of the given kind, in the order given.
fn hash_list(kind: u8, items: &[String]) -> (hash: String)
    ensures
        hash@ == list_hash(kind, texts(items@)),
{
    let mut input: Vec<u8> = Vec::new();
    input.push(kind);
    let count: usize = items.len();
    assert(texts(items@).take(0) =~= Seq::<Seq<char>>::empty());
    for i in 0..count
        invariant
            count == items@.len(),
            input@ == list_bytes(kind, texts(items@).take(i as int)),
    {
        proof {
            let all = texts(items@);
            assert(all.take(i + 1) =~= all.take(i as int).push(items@[i as int]@));
            lemma_framed_texts_push(all.take(i as int), items@[i as int]@);
        }
        append_framed_text(&mut input, items[i].as_str());
        assert(input@ =~= list_bytes(kind, texts(items@).take(i + 1)));
    }
    assert(texts(items@).take(count as int) =~= texts(items@));
    let digest = blake3_digest(input.as_slice());
    hex_encode(digest.as_slice())
}

/// The confidence score always lies between 0 and 100 hundredths.
pub proof fn lemma_confidence_bounded(components: ComponentsView)
    ensures
        0 <= confidence_of(components) <= FULL_CONFIDENCE,
{
}

/// The confidence score does not fall as components go from absent to
/// present: where every component present in `fewer` is present in `more`,
/// the score of `more` is at least that of `fewer`.
pub proof fn lemma_confidence_monotonic(fewer: ComponentsView, more: ComponentsView)
    requires
        presence_grows(fewer, more),
    ensures
        confidence_of(fewer) <= confidence_of(more),
{
}

/// Fingerprinting is deterministic: bundles with the same signals have the
/// same fingerprint, hash, components and confidence alike.
pub proof fn lemma_fingerprint_deterministic(a: SignalBundleView, b: SignalBundleView)
    requires
        a == b,
    ensures
        fingerprint_of(a) == fingerprint_of(b),
{
}

/// The parts of a screen that are fingerprinted: width, height, colour
/// depth and pixel ratio.
pub open spec fn screen_signal(screen: Option<ScreenInfo>) -> Option<(u32, u32, u8, u32)> {
    match screen {
        Some(s) => Some((s.width, s.height, s.color_depth, s.pixel_ratio_bits)),
        None => None,
    }
}

/// Whether two bundles agree in every signal that is fingerprinted: the
/// three client-side hashes, the font and the plugin list, the screen, the
/// address and the two TLS fingerprints.
pub open spec fn same_signals(a: SignalBundleView, b: SignalBundleView) -> bool {
    &&& a.browser.canvas_hash == b.browser.canvas_hash
    &&& a.browser.webgl_hash == b.browser.webgl_hash
    &&& a.browser.audio_hash == b.browser.audio_hash
    &&& a.browser.fonts == b.browser.fonts
    &&& a.browser.plugins == b.browser.plugins
    &&& screen_signal(a.browser.screen) == screen_signal(b.browser.screen)
    &&& a.network.ip == b.network.ip
    &&& a.network.ja3 == b.network.ja3
    &&& a.network.ja4 == b.network.ja4
}

/// Whether the texts of a bundle that are framed fit their frames. Every
/// bundle in memory does.
pub open spec fn representable(bundle: SignalBundleView) -> bool {
    &&& texts_fit(bundle.browser.fonts)
    &&& texts_fit(bundle.browser.plugins)
    &&& fits_frame(text_bytes(bundle.network.ip))
    &&& bundle.network.ja3 matches Some(ja3) ==> fits_frame(text_bytes(ja3))
    &&& bundle.network.ja4 matches Some(ja4) ==> fits_frame(text_bytes(ja4))
}

/// Whether BLAKE3 tells two inputs apart: it gives them different hashes
/// unless they are the same input.
pub open spec fn blake3_separates(x: Seq<u8>, y: Seq<u8>) -> bool {
    blake3(x) == blake3(y) ==> x == y
}

/// Whether SHA-256 tells two inputs apart.
pub open spec fn sha256_separates(x: Seq<u8>, y: Seq<u8>) -> bool {
    sha256(x) == sha256(y) ==> x == y
}

/// Whether the component digests do not collide on two bundles: on their
/// font lists, their plugin lists, their screens and their network signals.
pub open spec fn digests_separate(a: SignalBundleView, b: SignalBundleView) -> bool {
    &&& blake3_separates(
        list_bytes(KIND_FONTS, a.browser.fonts),
        list_bytes(KIND_FONTS, b.browser.fonts),
    )
    &&& blake3_separates(
        list_bytes(KIND_PLUGINS, a.browser.plugins),
        list_bytes(KIND_PLUGINS, b.browser.plugins),
    )
    &&& (a.browser.screen matches Some(s) && b.browser.screen matches Some(t)
        ==> blake3_separates(screen_bytes(s), screen_bytes(t)))
    &&& blake3_separates(network_bytes(a.network), network_bytes(b.network))
}

/// Whether two sets of components have the same shape: each component is
/// present in both or in neither, and where present its two hashes are
/// equally long. Components that `generate` computes are 64 characters
/// long, so they have the same shape where the same signals are present and
/// the client-side hashes are of one length.
pub open spec fn same_shape(a: ComponentsView, b: ComponentsView) -> bool {
    &&& same_length(a.canvas, b.canvas)
    &&& same_length(a.webgl, b.webgl)
    &&& same_length(a.audio, b.audio)
    &&& same_length(a.fonts, b.fonts)
    &&& same_length(a.plugins, b.plugins)
    &&& same_length(a.screen, b.screen)
    &&& same_length(a.network, b.network)
}

/// Whether two optional texts are both absent, or both present with UTF-8
/// bytes of one length.
pub open spec fn same_length(x: Option<Seq<char>>, y: Option<Seq<char>>) -> bool {
    match (x, y) {
        (Some(s), Some(t)) => text_bytes(s).len() == text_bytes(t).len(),
        (None, None) => true,
        _ => false,
    }
}

/// The bytes of a list determine the list: lists of one kind with the same
/// bytes have the same items in the same order.
pub proof fn lemma_list_bytes_injective(kind: u8, a: Seq<Seq<char>>, b: Seq<Seq<char>>)
    requires
        texts_fit(a),
        texts_fit(b),
        list_bytes(kind, a) == list_bytes(kind, b),
    ensures
        a == b,
{
    assert(list_bytes(kind, a).subrange(1, list_bytes(kind, a).len() as int) =~= framed_texts(a));
    assert(list_bytes(kind, b).subrange(1, list_bytes(kind, b).len() as int) =~= framed_texts(b));
    lemma_framed_texts_injective(a, b);
}

/// The bytes of a screen determine what is fingerprinted of it.
pub proof fn lemma_screen_bytes_injective(s: ScreenInfo, t: ScreenInfo)
    requires
        screen_bytes(s) == screen_bytes(t),
    ensures
        screen_signal(Some(s)) == screen_signal(Some(t)),
{
    lemma_auto_spec_u32_to_from_le_bytes();
    let x = screen_bytes(s);
    let y = screen_bytes(t);
    assert(x.subrange(1, 5) =~= spec_u32_to_le_bytes(s.width));
    assert(y.subrange(1, 5) =~= spec_u32_to_le_bytes(t.width));
    assert(x.subrange(5, 9) =~= spec_u32_to_le_bytes(s.height));
    assert(y.subrange(5, 9) =~= spec_u32_to_le_bytes(t.height));
    assert(x[9] == s.color_depth);
    assert(y[9] == t.color_depth);
    assert(x.subrange(10, 14) =~= spec_u32_to_le_bytes(s.pixel_ratio_bits));
    assert(y.subrange(10, 14) =~= spec_u32_to_le_bytes(t.pixel_ratio_bits));
    assert(s.width == spec_u32_from_le_bytes(spec_u32_to_le_bytes(s.width)));
    assert(t.width == spec_u32_from_le_bytes(spec_u32_to_le_bytes(t.width)));
    assert(s.height == spec_u32_from_le_bytes(spec_u32_to_le_bytes(s.height)));
    assert(t.height == spec_u32_from_le_bytes(spec_u32_to_le_bytes(t.height)));
    assert(s.pixel_ratio_bits == spec_u32_from_le_bytes(
        spec_u32_to_le_bytes(s.pixel_ratio_bits),
    ));
    assert(t.pixel_ratio_bits == spec_u32_from_le_bytes(
        spec_u32_to_le_bytes(t.pixel_ratio_bits),
    ));
}

/// A tagged text at the head of a byte string determines the text and what
/// follows it.
proof fn lemma_tagged_split(
    tag: u8,
    s: Seq<char>,
    rest_s: Seq<u8>,
    t: Seq<char>,
    rest_t: Seq<u8>,
)
    requires
        fits_frame(text_bytes(s)),
        fits_frame(text_bytes(t)),
        seq![tag] + framed_text(s) + rest_s == seq![tag] + framed_text(t) + rest_t,
    ensures
        s == t,
        rest_s == rest_t,
{
    let x = seq![tag] + framed_text(s) + rest_s;
    let y = seq![tag] + framed_text(t) + rest_t;
    assert(x.subrange(1, x.len() as int) =~= framed_text(s) + rest_s);
    assert(y.subrange(1, y.len() as int) =~= framed_text(t) + rest_t);
    lemma_frame_split(text_bytes(s), rest_s, text_bytes(t), rest_t);
    lemma_text_bytes_injective(s, t);
}

/// The bytes of the network signals determine the address and the two TLS
/// fingerprints, present or absent.
pub proof fn lemma_network_bytes_injective(n: NetworkSignalsView, m: NetworkSignalsView)
    requires
        fits_frame(text_bytes(n.ip)),
        fits_frame(text_bytes(m.ip)),
        n.ja3 matches Some(ja3) ==> fits_frame(text_bytes(ja3)),
        n.ja4 matches Some(ja4) ==> fits_frame(text_bytes(ja4)),
        m.ja3 matches Some(ja3) ==> fits_frame(text_bytes(ja3)),
        m.ja4 matches Some(ja4) ==> fits_frame(text_bytes(ja4)),
        network_bytes(n) == network_bytes(m),
    ensures
        n.ip == m.ip,
        n.ja3 == m.ja3,
        n.ja4 == m.ja4,
{
    let tail_n = tagged_text(FIELD_JA3, n.ja3) + tagged_text(FIELD_JA4, n.ja4);
    let tail_m = tagged_text(FIELD_JA3, m.ja3) + tagged_text(FIELD_JA4, m.ja4);
    assert(network_bytes(n) =~= seq![KIND_NETWORK] + framed_text(n.ip) + tail_n);
    assert(network_bytes(m) =~= seq![KIND_NETWORK] + framed_text(m.ip) + tail_m);
    lemma_tagged_split(KIND_NETWORK, n.ip, tail_n, m.ip, tail_m);
    let four_n = tagged_text(FIELD_JA4, n.ja4);
    let four_m = tagged_text(FIELD_JA4, m.ja4);
    match (n.ja3, m.ja3) {
        (Some(s), Some(t)) => {
            assert(tail_n =~= seq![FIELD_JA3] + framed_text(s) + four_n);
            assert(tail_m =~= seq![FIELD_JA3] + framed_text(t) + four_m);
            lemma_tagged_split(FIELD_JA3, s, four_n, t, four_m);
        },
        (Some(s), None) => {
            assert(tail_n[0] == FIELD_JA3);
            assert(tail_m =~= four_m);
            if m.ja4 is Some {
                assert(tail_m[0] == FIELD_JA4);
            }
        },
        (None, Some(t)) => {
            assert(tail_m[0] == FIELD_JA3);
            assert(tail_n =~= four_n);
            if n.ja4 is Some {
                assert(tail_n[0] == FIELD_JA4);
            }
        },
        (None, None) => {
            assert(tail_n =~= four_n);
            assert(tail_m =~= four_m);
        },
    }
    match (n.ja4, m.ja4) {
        (Some(s), Some(t)) => {
            assert(four_n =~= seq![FIELD_JA4] + framed_text(s) + Seq::<u8>::empty());
            assert(four_m =~= seq![FIELD_JA4] + framed_text(t) + Seq::<u8>::empty());
            lemma_tagged_split(FIELD_JA4, s, Seq::<u8>::empty(), t, Seq::<u8>::empty());
        },
        (Some(s), None) => {
            assert(four_n.len() > 0);
        },
        (None, Some(t)) => {
            assert(four_m.len() > 0);
        },
        (None, None) => {},
    }
}

/// Each component determines its signal, unless a digest collides: where
/// two bundles have the same hash for a component, or lack it both, they
/// agree in the signal behind it. So a signal that is changed changes the
/// hash of its component.
pub proof fn lemma_component_determines_signal(a: SignalBundleView, b: SignalBundleView)
    requires
        representable(a),
        representable(b),
        digests_separate(a, b),
    ensures
        components_of(a).canvas == components_of(b).canvas ==> a.browser.canvas_hash
            == b.browser.canvas_hash,
        components_of(a).webgl == components_of(b).webgl ==> a.browser.webgl_hash
            == b.browser.webgl_hash,
        components_of(a).audio == components_of(b).audio ==> a.browser.audio_hash
            == b.browser.audio_hash,
        components_of(a).fonts == components_of(b).fonts ==> a.browser.fonts == b.browser.fonts,
        components_of(a).plugins == components_of(b).plugins ==> a.browser.plugins
            == b.browser.plugins,
        components_of(a).screen == components_of(b).screen ==> screen_signal(a.browser.screen)
            == screen_signal(b.browser.screen),
        components_of(a).network == components_of(b).network ==> a.network.ip == b.network.ip
            && a.network.ja3 == b.network.ja3 && a.network.ja4 == b.network.ja4,
{
    let ca = components_of(a);
    let cb = components_of(b);
    if ca.fonts == cb.fonts {
        if a.browser.fonts.len() > 0 {
            lemma_hex_lower_injective(
                blake3(list_bytes(KIND_FONTS, a.browser.fonts)),
                blake3(list_bytes(KIND_FONTS, b.browser.fonts)),
            );
            lemma_list_bytes_injective(KIND_FONTS, a.browser.fonts, b.browser.fonts);
        } else {
            assert(a.browser.fonts =~= b.browser.fonts);
        }
    }
    if ca.plugins == cb.plugins {
        if a.browser.plugins.len() > 0 {
            lemma_hex_lower_injective(
                blake3(list_bytes(KIND_PLUGINS, a.browser.plugins)),
                blake3(list_bytes(KIND_PLUGINS, b.browser.plugins)),
            );
            lemma_list_bytes_injective(KIND_PLUGINS, a.browser.plugins, b.browser.plugins);
        } else {
            assert(a.browser.plugins =~= b.browser.plugins);
        }
    }
    if ca.screen == cb.screen && a.browser.screen is Some {
        let s = a.browser.screen->0;
        let t = b.browser.screen->0;
        lemma_hex_lower_injective(blake3(screen_bytes(s)), blake3(screen_bytes(t)));
        lemma_screen_bytes_injective(s, t);
    }
    if ca.network == cb.network {
        lemma_hex_lower_injective(
            blake3(network_bytes(a.network)),
            blake3(network_bytes(b.network)),
        );
        lemma_network_bytes_injective(a.network, b.network);
    }
}

/// The components of a bundle determine its signals, unless a digest
/// collides: bundles with the same components agree in every signal that is
/// fingerprinted.
pub proof fn lemma_components_determine_signals(a: SignalBundleView, b: SignalBundleView)
    requires
        representable(a),
        representable(b),
        digests_separate(a, b),
        components_of(a) == components_of(b),
    ensures
        same_signals(a, b),
{
    lemma_component_determines_signal(a, b);
}

/// Bundles that differ in a signal have different fingerprints, unless a
/// digest collides: where two bundles differ in a client-side hash, in the
/// font or the plugin list (an item, the number of items or their order),
/// in the width, height, colour depth or pixel ratio of the screen, in the
/// address or in a TLS fingerprint, their components differ, and with them
/// their fingerprints.
pub proof fn lemma_fingerprints_differ(a: SignalBundleView, b: SignalBundleView)
    requires
        representable(a),
        representable(b),
        digests_separate(a, b),
        !same_signals(a, b),
    ensures
        components_of(a) != components_of(b),
        fingerprint_of(a) != fingerprint_of(b),
{
    if components_of(a) == components_of(b) {
        lemma_components_determine_signals(a, b);
    }
}

/// Sets of components of one shape that differ are digested from different
/// bytes: the input of the composite hash determines the components.
pub proof fn lemma_composite_input_injective(a: ComponentsView, b: ComponentsView)
    requires
        same_shape(a, b),
        composite_input(a) == composite_input(b),
    ensures
        a == b,
{
    let a1 = present_bytes(a.canvas);
    let a2 = a1 + present_bytes(a.webgl);
    let a3 = a2 + present_bytes(a.audio);
    let a4 = a3 + present_bytes(a.fonts);
    let a5 = a4 + present_bytes(a.plugins);
    let a6 = a5 + present_bytes(a.screen);
    let b1 = present_bytes(b.canvas);
    let b2 = b1 + present_bytes(b.webgl);
    let b3 = b2 + present_bytes(b.audio);
    let b4 = b3 + present_bytes(b.fonts);
    let b5 = b4 + present_bytes(b.plugins);
    let b6 = b5 + present_bytes(b.screen);
    lemma_split_at_end(a6, present_bytes(a.network), b6, present_bytes(b.network));
    lemma_split_at_end(a5, present_bytes(a.screen), b5, present_bytes(b.screen));
    lemma_split_at_end(a4, present_bytes(a.plugins), b4, present_bytes(b.plugins));
    lemma_split_at_end(a3, present_bytes(a.fonts), b3, present_bytes(b.fonts));
    lemma_split_at_end(a2, present_bytes(a.audio), b2, present_bytes(b.audio));
    lemma_split_at_end(a1, present_bytes(a.webgl), b1, present_bytes(b.webgl));
    lemma_present_bytes_injective(a.canvas, b.canvas);
    lemma_present_bytes_injective(a.webgl, b.webgl);
    lemma_present_bytes_injective(a.audio, b.audio);
    lemma_present_bytes_injective(a.fonts, b.fonts);
    lemma_present_bytes_injective(a.plugins, b.plugins);
    lemma_present_bytes_injective(a.screen, b.screen);
    lemma_present_bytes_injective(a.network, b.network);
}

/// Byte strings that end in parts of one length and are equal have equal
/// ends and equal beginnings.
proof fn lemma_split_at_end(head_a: Seq<u8>, end_a: Seq<u8>, head_b: Seq<u8>, end_b: Seq<u8>)
    requires
        end_a.len() == end_b.len(),
        head_a + end_a == head_b + end_b,
    ensures
        head_a == head_b,
        end_a == end_b,
{
    let whole_a = head_a + end_a;
    let whole_b = head_b + end_b;
    assert(whole_a.len() == whole_b.len());
    let cut = head_a.len() as int;
    assert(whole_a.subrange(0, cut) =~= head_a);
    assert(whole_b.subrange(0, cut) =~= head_b);
    assert(whole_a.subrange(cut, whole_a.len() as int) =~= end_a);
    assert(whole_b.subrange(cut, whole_b.len() as int) =~= end_b);
}

/// Optional texts that are both present or both absent, with the same
/// bytes, are the same.
proof fn lemma_present_bytes_injective(x: Option<Seq<char>>, y: Option<Seq<char>>)
    requires
        same_length(x, y),
        present_bytes(x) == present_bytes(y),
    ensures
        x == y,
{
    if x is Some {
        lemma_text_bytes_injective(x->0, y->0);
    }
}

/// Bundles that differ in a signal have different composite hashes, unless
/// a digest collides: where two bundles differ in a signal that is
/// fingerprinted and their components have the same shape, the hashes of
/// their fingerprints differ.
pub proof fn lemma_hashes_differ(a: SignalBundleView, b: SignalBundleView)
    requires
        representable(a),
        representable(b),
        digests_separate(a, b),
        same_shape(components_of(a), components_of(b)),
        sha256_separates(composite_input(components_of(a)), composite_input(components_of(b))),
        !same_signals(a, b),
    ensures
        fingerprint_of(a).hash != fingerprint_of(b).hash,
{
    lemma_fingerprints_differ(a, b);
    if fingerprint_of(a).hash == fingerprint_of(b).hash {
        lemma_hex_lower_injective(
            sha256(composite_input(components_of(a))),
            sha256(composite_input(components_of(b))),
        );
        lemma_composite_input_injective(components_of(a), components_of(b));
    }
}

} // verus!
