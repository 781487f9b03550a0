//! The browsers of the dataset and their codes.

use crate::error::DecodeError;
use crate::text::same_text;
use vstd::prelude::*;

verus! {

/// A browser of the dataset.
#[derive(Debug, Clone, Copy, PartialEq, Eq, Structural, Hash)]
pub enum Browser {
    /// `"ie"`: Internet Explorer.
    IE,
    /// `"edge"`: Edge.
    Edge,
    /// `"firefox"`: Firefox.
    Firefox,
    /// `"chrome"`: Chrome.
    Chrome,
    /// `"safari"`: Safari.
    Safari,
    /// `"opera"`: Opera.
    Opera,
    /// `"ios_saf"`: Safari on iOS.
    IOSSafari,
    /// `"op_mini"`: Opera Mini.
    OperaMini,
    /// `"android"`: the Android browser.
    AndroidBrowser,
    /// `"bb"`: the Blackberry browser.
    BlackberryBrowser,
    /// `"op_mob"`: Opera Mobile.
    OperaMobile,
    /// `"and_chr"`: Chrome for Android.
    AndroidChrome,
    /// `"and_ff"`: Firefox for Android.
    AndroidFirefox,
    /// `"ie_mob"`: Internet Explorer Mobile.
    IEMobile,
    /// `"baidu"`: the Baidu browser.
    BaiduBrowser,
    /// `"and_uc"`: UC Browser for Android.
    AndroidUCBrowser,
    /// `"and_qq"`: QQ Browser for Android.
    AndroidQQBrowser,
    /// `"samsung"`: Samsung Internet.
    SamsungBrowser,
}

impl Browser {
    /// The code that the dataset writes for this browser.
    pub open spec fn code(self) -> Seq<char> {
        match self {
            Browser::IE => "ie"@,
            Browser::Edge => "edge"@,
            Browser::Firefox => "firefox"@,
            Browser::Chrome => "chrome"@,
            Browser::Safari => "safari"@,
            Browser::Opera => "opera"@,
            Browser::IOSSafari => "ios_saf"@,
            Browser::OperaMini => "op_mini"@,
            Browser::AndroidBrowser => "android"@,
            Browser::BlackberryBrowser => "bb"@,
            Browser::OperaMobile => "op_mob"@,
            Browser::AndroidChrome => "and_chr"@,
            Browser::AndroidFirefox => "and_ff"@,
            Browser::IEMobile => "ie_mob"@,
            Browser::BaiduBrowser => "baidu"@,
            Browser::AndroidUCBrowser => "and_uc"@,
            Browser::AndroidQQBrowser => "and_qq"@,
            Browser::SamsungBrowser => "samsung"@,
        }
    }

    /// The browser whose code is `c`, if there is one.
    pub open spec fn of_code(c: Seq<char>) -> Option<Browser> {
        if exists|v: Browser| v.code() == c {
            Some(choose|v: Browser| v.code() == c)
        } else {
            None
        }
    }

    /// The name under which this browser is shown: that of its variant.
    pub open spec fn shown_as(self) -> Seq<char> {
        match self {
            Browser::IE => "IE"@,
            Browser::Edge => "Edge"@,
            Browser::Firefox => "Firefox"@,
            Browser::Chrome => "Chrome"@,
            Browser::Safari => "Safari"@,
            Browser::Opera => "Opera"@,
            Browser::IOSSafari => "IOSSafari"@,
            Browser::OperaMini => "OperaMini"@,
            Browser::AndroidBrowser => "AndroidBrowser"@,
            Browser::BlackberryBrowser => "BlackberryBrowser"@,
            Browser::OperaMobile => "OperaMobile"@,
            Browser::AndroidChrome => "AndroidChrome"@,
            Browser::AndroidFirefox => "AndroidFirefox"@,
            Browser::IEMobile => "IEMobile"@,
            Browser::BaiduBrowser => "BaiduBrowser"@,
            Browser::AndroidUCBrowser => "AndroidUCBrowser"@,
            Browser::AndroidQQBrowser => "AndroidQQBrowser"@,
            Browser::SamsungBrowser => "SamsungBrowser"@,
        }
    }

    /// Encodes this browser: its code in the dataset.
    pub fn as_str(&self) -> (r: &'static str)
        ensures
            r@ == self.code(),
    {
        match *self {
            Browser::IE => "ie",
            Browser::Edge => "edge",
            Browser::Firefox => "firefox",
            Browser::Chrome => "chrome",
            Browser::Safari => "safari",
            Browser::Opera => "opera",
            Browser::IOSSafari => "ios_saf",
            Browser::OperaMini => "op_mini",
            Browser::AndroidBrowser => "android",
            Browser::BlackberryBrowser => "bb",
            Browser::OperaMobile => "op_mob",
            Browser::AndroidChrome => "and_chr",
            Browser::AndroidFirefox => "and_ff",
            Browser::IEMobile => "ie_mob",
            Browser::BaiduBrowser => "baidu",
            Browser::AndroidUCBrowser => "and_uc",
            Browser::AndroidQQBrowser => "and_qq",
            Browser::SamsungBrowser => "samsung",
        }
    }

    /// The name under which this browser is shown.
    pub fn name(&self) -> (r: &'static str)
        ensures
            r@ == self.shown_as(),
    {
        match *self {
            Browser::IE => "IE",
            Browser::Edge => "Edge",
            Browser::Firefox => "Firefox",
            Browser::Chrome => "Chrome",
            Browser::Safari => "Safari",
            Browser::Opera => "Opera",
            Browser::IOSSafari => "IOSSafari",
            Browser::OperaMini => "OperaMini",
            Browser::AndroidBrowser => "AndroidBrowser",
            Browser::BlackberryBrowser => "BlackberryBrowser",
            Browser::OperaMobile => "OperaMobile",
            Browser::AndroidChrome => "AndroidChrome",
            Browser::AndroidFirefox => "AndroidFirefox",
            Browser::IEMobile => "IEMobile",
            Browser::BaiduBrowser => "BaiduBrowser",
            Browser::AndroidUCBrowser => "AndroidUCBrowser",
            Browser::AndroidQQBrowser => "AndroidQQBrowser",
            Browser::SamsungBrowser => "SamsungBrowser",
        }
    }

    /// No two variants share a code.
    pub proof fn lemma_codes_distinct(a: Browser, b: Browser)
        ensures
            a.code() == b.code() ==> a == b,
    {
        reveal_strlit("ie");
        reveal_strlit("edge");
        reveal_strlit("firefox");
        reveal_strlit("chrome");
        reveal_strlit("safari");
        reveal_strlit("opera");
        reveal_strlit("ios_saf");
        reveal_strlit("op_mini");
        reveal_strlit("android");
        reveal_strlit("bb");
        reveal_strlit("op_mob");
        reveal_strlit("and_chr");
        reveal_strlit("and_ff");
        reveal_strlit("ie_mob");
        reveal_strlit("baidu");
        reveal_strlit("and_uc");
        reveal_strlit("and_qq");
        reveal_strlit("samsung");
        if a.code() == b.code() {
            // Length and the characters at 0, 3 and 4 tell all codes apart.
            assert(a.code().len() == b.code().len());
            assert(a.code()[0] == b.code()[0]);
            assert(a.code()[3] == b.code()[3]);
            assert(a.code()[4] == b.code()[4]);
        }
    }

    /// Decoding the code of a browser gives that browser back.
    pub proof fn lemma_code_round_trip(v: Browser)
        ensures
            Browser::of_code(v.code()) == Some(v),
    {
        let w = choose|w: Browser| w.code() == v.code();
        Browser::lemma_codes_distinct(w, v);
    }

    /// Encoding what a code decodes to gives that code back, so no two codes
    /// decode to the same browser.
    pub proof fn lemma_decode_round_trip(c: Seq<char>)
        ensures
            Browser::of_code(c) matches Some(v) ==> v.code() == c,
    {
    }

    /// A text decodes to nothing exactly when it is the code of no browser.
    pub proof fn lemma_unknown_code(c: Seq<char>)
        ensures
            Browser::of_code(c) is None <==> forall|v: Browser| v.code() != c,
    {
    }
}

impl std::str::FromStr for Browser {
    type Err = DecodeError;

    /// Decodes a code of the dataset: the browser that has it, or
    /// `UnknownCode` with the text where none has.
    fn from_str(s: &str) -> (r: Result<Browser, DecodeError>)
        ensures
            match r {
                Ok(v) => Browser::of_code(s@) == Some(v),
                Err(e) => Browser::of_code(s@) is None && e.code() == s@,
            },
    {
        if same_text(s, "ie") {
            proof {
                Browser::lemma_code_round_trip(Browser::IE);
            }
            Ok(Browser::IE)
        } else if same_text(s, "edge") {
            proof {
                Browser::lemma_code_round_trip(Browser::Edge);
            }
            Ok(Browser::Edge)
        } else if same_text(s, "firefox") {
            proof {
                Browser::lemma_code_round_trip(Browser::Firefox);
            }
            Ok(Browser::Firefox)
        } else if same_text(s, "chrome") {
            proof {
                Browser::lemma_code_round_trip(Browser::Chrome);
            }
            Ok(Browser::Chrome)
        } else if same_text(s, "safari") {
            proof {
                Browser::lemma_code_round_trip(Browser::Safari);
            }
            Ok(Browser::Safari)
        } else if same_text(s, "opera") {
            proof {
                Browser::lemma_code_round_trip(Browser::Opera);
            }
            Ok(Browser::Opera)
        } else if same_text(s, "ios_saf") {
            proof {
                Browser::lemma_code_round_trip(Browser::IOSSafari);
            }
            Ok(Browser::IOSSafari)
        } else if same_text(s, "op_mini") {
            proof {
                Browser::lemma_code_round_trip(Browser::OperaMini);
            }
            Ok(Browser::OperaMini)
        } else if same_text(s, "android") {
            proof {
                Browser::lemma_code_round_trip(Browser::AndroidBrowser);
            }
            Ok(Browser::AndroidBrowser)
        } else if same_text(s, "bb") {
            proof {
                Browser::lemma_code_round_trip(Browser::BlackberryBrowser);
            }
            Ok(Browser::BlackberryBrowser)
        } else if same_text(s, "op_mob") {
            proof {
                Browser::lemma_code_round_trip(Browser::OperaMobile);
            }
            Ok(Browser::OperaMobile)
        } else if same_text(s, "and_chr") {
            proof {
                Browser::lemma_code_round_trip(Browser::AndroidChrome);
            }
            Ok(Browser::AndroidChrome)
        } else if same_text(s, "and_ff") {
            proof {
                Browser::lemma_code_round_trip(Browser::AndroidFirefox);
            }
            Ok(Browser::AndroidFirefox)
        } else if same_text(s, "ie_mob") {
            proof {
                Browser::lemma_code_round_trip(Browser::IEMobile);
            }
            Ok(Browser::IEMobile)
        } else if same_text(s, "baidu") {
            proof {
                Browser::lemma_code_round_trip(Browser::BaiduBrowser);
            }
            Ok(Browser::BaiduBrowser)
        } else if same_text(s, "and_uc") {
            proof {
                Browser::lemma_code_round_trip(Browser::AndroidUCBrowser);
            }
            Ok(Browser::AndroidUCBrowser)
        } else if same_text(s, "and_qq") {
            proof {
                Browser::lemma_code_round_trip(Browser::AndroidQQBrowser);
            }
            Ok(Browser::AndroidQQBrowser)
        } else if same_text(s, "samsung") {
            proof {
                Browser::lemma_code_round_trip(Browser::SamsungBrowser);
            }
            Ok(Browser::SamsungBrowser)
        } else {
            Err(DecodeError::UnknownCode(s.to_owned()))
        }
    }
}

} // verus!
