use vstd::prelude::*;

verus! {

pub const CHECK_ELEMENT_STATE: &'static str = r#"
(selector) => {
    try {
        const el = document.querySelector(selector);
        if (!el) return { exists: false };
        
        const rect = el.getBoundingClientRect();
        const style = window.getComputedStyle(el);
        const isVisible = rect.width > 0 && rect.height > 0 && 
                         style.visibility !== 'hidden' && 
                         style.display !== 'none' &&
                         style.opacity !== '0';
        
        if (!isVisible) return { exists: true, visible: false };
        
        const centerX = rect.left + rect.width / 2;
        const centerY = rect.top + rect.height / 2;
        const topEl = document.elementFromPoint(centerX, centerY);
        const isObscured = topEl && !el.contains(topEl) && topEl !== el;
        
        return {
            exists: true,
            visible: isVisible,
            obscured: isObscured,
            obscuredBy: isObscured ? (topEl.tagName + (topEl.className ? '.' + topEl.className.split(' ').join('.') : '')) : null,
            inViewport: rect.top >= 0 && rect.left >= 0 && 
                       rect.bottom <= window.innerHeight && 
                       rect.right <= window.innerWidth,
            disabled: el.disabled || el.getAttribute('aria-disabled') === 'true',
            rect: { 
                top: rect.top, 
                left: rect.left, 
                width: rect.width, 
                height: rect.height 
            },
            matchedSelector: selector,
            actualTag: el.tagName.toLowerCase()
        };
    } catch (error) {
        return { exists: false, error: error.message };
    }
}
"#;

pub const SCROLL_INTO_VIEW: &'static str = r#"
(selector, block = 'center') => {
    try {
        const el = document.querySelector(selector);
        if (!el) return { success: false, error: 'Element not found' };
        
        el.scrollIntoView({ 
            behavior: 'smooth', 
            block: block,
            inline: 'nearest'
        });
        
        return { success: true };
    } catch (error) {
        return { success: false, error: error.message };
    }
}
"#;

pub const SAFE_CLICK: &'static str = r#"
(selector) => {
    try {
        const el = document.querySelector(selector);
        if (!el) return { success: false, error: 'Element not found' };
        
        // Check if element is interactable
        const rect = el.getBoundingClientRect();
        const style = window.getComputedStyle(el);
        const isInteractable = rect.width > 0 && rect.height > 0 && 
                               style.visibility !== 'hidden' && 
                               style.display !== 'none' &&
                               style.pointerEvents !== 'none';
        
        if (!isInteractable) {
            return { success: false, error: 'Element not interactable' };
        }
        
        el.click();
        return { success: true };
    } catch (error) {
        return { success: false, error: error.message };
    }
}
"#;

pub const EXTRACT_TEXT: &'static str = r#"
(selector) => {
    try {
        return Array.from(document.querySelectorAll(selector))
            .map(e => e.textContent?.trim() || '');
    } catch (error) {
        return [];
    }
}
"#;

pub const EXTRACT_ATTR: &'static str = r#"
(selector, attr) => {
    try {
        return Array.from(document.querySelectorAll(selector))
            .map(e => e.getAttribute(attr) || '');
    } catch (error) {
        return [];
    }
}
"#;

pub const EXTRACT_MULTIPLE: &'static str = r#"
(selector, attrs) => {
    try {
        return Array.from(document.querySelectorAll(selector)).map(e => {
            const result = {};
            attrs.forEach(attr => {
                if (attr === 'text') {
                    result[attr] = e.textContent?.trim() || '';
                } else if (attr === 'html') {
                    result[attr] = e.innerHTML || '';
                } else {
                    result[attr] = e.getAttribute(attr) || '';
                }
            });
            return result;
        });
    } catch (error) {
        return [];
    }
}
"#;

pub const TYPE_TEXT: &'static str = r#"
(selector, text, clear = false) => {
    try {
        const el = document.querySelector(selector);
        if (!el) return { success: false, error: 'Element not found' };
        
        el.focus();
        
        if (clear) {
            el.value = '';
        }
        
        // Support both input and contenteditable elements
        if (el.isContentEditable) {
            if (clear) {
                el.textContent = text;
            } else {
                el.textContent += text;
            }
        } else {
            el.value = clear ? text : (el.value || '') + text;
        }
        
        // Dispatch events in proper order
        el.dispatchEvent(new Event('input', { bubbles: true }));
        el.dispatchEvent(new Event('change', { bubbles: true }));
        el.dispatchEvent(new Event('blur', { bubbles: true }));
        
        return { success: true };
    } catch (error) {
        return { success: false, error: error.message };
    }
}
"#;

pub const HOVER_ELEMENT: &'static str = r#"
(selector) => {
    try {
        const el = document.querySelector(selector);
        if (!el) return { success: false, error: 'Element not found' };
        
        // Dispatch all relevant mouse events
        ['mouseenter', 'mouseover', 'mousemove'].forEach(eventType => {
            const event = new MouseEvent(eventType, { 
                bubbles: true, 
                cancelable: true,
                view: window
            });
            el.dispatchEvent(event);
        });
        
        return { success: true };
    } catch (error) {
        return { success: false, error: error.message };
    }
}
"#;

pub const SELECT_OPTION: &'static str = r#"
(selector, value) => {
    try {
        const el = document.querySelector(selector);
        if (!el) return { success: false, error: 'Element not found' };
        
        if (el.tagName !== 'SELECT') {
            return { success: false, error: 'Element is not a select element' };
        }
        
        // Try to find and select the option
        const option = Array.from(el.options).find(opt => 
            opt.value === value || opt.text === value
        );
        
        if (!option) {
            return { 
                success: false, 
                error: 'Option not found',
                availableOptions: Array.from(el.options).map(opt => ({
                    value: opt.value,
                    text: opt.text
                }))
            };
        }
        
        el.value = option.value;
        el.dispatchEvent(new Event('change', { bubbles: true }));
        el.dispatchEvent(new Event('input', { bubbles: true }));
        
        return { success: true, selectedValue: option.value, selectedText: option.text };
    } catch (error) {
        return { success: false, error: error.message };
    }
}
"#;

pub const SET_COOKIE: &'static str = r#"
(name, value, options = {}) => {
    try {
        let cookieString = `${encodeURIComponent(name)}=${encodeURIComponent(value)}`;
        
        if (options.domain) cookieString += `; domain=${options.domain}`;
        if (options.path) cookieString += `; path=${options.path}`;
        else cookieString += '; path=/';
        
        if (options.maxAge) cookieString += `; max-age=${options.maxAge}`;
        if (options.expires) cookieString += `; expires=${options.expires}`;
        if (options.secure) cookieString += '; secure';
        if (options.sameSite) cookieString += `; samesite=${options.sameSite}`;
        
        document.cookie = cookieString;
        
        return { success: true, cookie: cookieString };
    } catch (error) {
        return { success: false, error: error.message };
    }
}
"#;

pub const DETECT_CAPTCHA: &'static str = r#"
() => {
    try {
        const indicators = {
            recaptcha: {
                found: false,
                selectors: [
                    'iframe[src*="recaptcha"]', 
                    '.g-recaptcha', 
                    '#recaptcha', 
                    '[class*="recaptcha"]',
                    '[id*="recaptcha"]'
                ]
            },
            hcaptcha: {
                found: false,
                selectors: [
                    'iframe[src*="hcaptcha"]', 
                    '.h-captcha', 
                    '#hcaptcha', 
                    '[class*="hcaptcha"]',
                    '[id*="hcaptcha"]'
                ]
            },
            cloudflare: {
                found: false,
                selectors: [
                    '#challenge-form', 
                    '.cf-challenge', 
                    '[class*="cf-turnstile"]', 
                    'iframe[src*="challenges.cloudflare"]',
                    '[id*="cf-challenge"]'
                ]
            },
            generic: {
                found: false,
                selectors: [
                    '[id*="captcha"]:not([id*="recaptcha"]):not([id*="hcaptcha"])', 
                    '[class*="captcha"]:not([class*="recaptcha"]):not([class*="hcaptcha"])', 
                    '[name*="captcha"]'
                ]
            }
        };
        
        const detected = [];
        
        // Check each CAPTCHA type
        for (const [type, config] of Object.entries(indicators)) {
            for (const selector of config.selectors) {
                const elements = document.querySelectorAll(selector);
                for (const el of elements) {
                    const rect = el.getBoundingClientRect();
                    const style = window.getComputedStyle(el);
                    const isVisible = rect.width > 0 && rect.height > 0 && 
                                     style.visibility !== 'hidden' && 
                                     style.display !== 'none' &&
                                     style.opacity !== '0';
                    
                    if (isVisible) {
                        detected.push({
                            type: type,
                            selector: selector,
                            element: el.tagName.toLowerCase(),
                            id: el.id,
                            className: el.className
                        });
                        config.found = true;
                        break;
                    }
                }
                if (config.found) break;
            }
        }
        
        // Text analysis
        const getPageText = () => {
            const body = document.body?.innerText?.toLowerCase() || '';
            const html = document.documentElement?.innerText?.toLowerCase() || '';
            return body + ' ' + html;
        };
        
        const fullText = getPageText();
        
        const captchaKeywords = [
            'verify you are human',
            'complete the captcha',
            'prove you are not a robot',
            "i'm not a robot",
            'im not a robot',
            'unusual traffic',
            'automated requests',
            'our systems have detected unusual traffic',
            'please verify you are a human',
            'suspicious activity',
            'verify that you are not a robot',
            'security check',
            'are you a robot'
        ];
        
        const cookieConsentPhrases = [
            'accept cookies',
            'cookie policy',
            'privacy policy',
            'we use cookies',
            'manage cookies'
        ];
        
        const foundKeywords = captchaKeywords.filter(keyword => fullText.includes(keyword));
        const hasCookieConsent = cookieConsentPhrases.some(phrase => fullText.includes(phrase));
        const isCaptchaText = foundKeywords.length > 0;
        
        // Title and URL checks
        const title = document.title.toLowerCase();
        const titleIndicators = ['captcha', 'security check', 'verify', 'unusual traffic', 'attention required'];
        const titleMatch = titleIndicators.some(indicator => title.includes(indicator));
        
        const url = window.location.href.toLowerCase();
        const pathname = window.location.pathname.toLowerCase();
        const urlIndicators = ['captcha', '/sorry', 'ipv6_or_unusual_traffic', 'challenge', '/cdn-cgi/challenge'];
        const urlMatch = urlIndicators.some(indicator => url.includes(indicator) || pathname.includes(indicator));
        
        const isDetected = detected.length > 0 || isCaptchaText || titleMatch || urlMatch;
        
        return {
            detected: isDetected,
            confidence: isDetected ? (detected.length > 0 ? 'high' : 'medium') : 'none',
            types: [...new Set(detected.map(d => d.type))],
            details: detected,
            keywords: foundKeywords,
            titleMatch: titleMatch,
            urlMatch: urlMatch,
            hasCookieConsent: hasCookieConsent,
            pageTitle: document.title,
            url: window.location.href,
            bodyTextSample: fullText.substring(0, 300)
        };
    } catch (error) {
        return { 
            detected: false, 
            error: error.message 
        };
    }
}
"#;
pub const CHECK_LOADING: &'static str = r#"
() => ({
    readyState: document.readyState,
    loading: document.readyState !== 'complete',
    activeRequests: performance.getEntriesByType('resource').filter(r => !r.responseEnd).length
})
"#;

pub const FIND_AND_CLICK_COOKIE: &'static str = r#"
(patterns) => {
    const selectors = [
        'button', 'a[role="button"]', 'div[role="button"]',
        '[class*="cookie"]', '[id*="cookie"]',
        '[class*="consent"]', '[id*="consent"]'
    ];
    const btns = Array.from(document.querySelectorAll(selectors.join(', ')));
    
    for (const btn of btns) {
        const text = btn.textContent.trim();
        for (const pattern of patterns) {
            if (text.toLowerCase().includes(pattern.toLowerCase())) {
                btn.click();
                return { clicked: true, text };
            }
        }
    }
    return { clicked: false };
}
"#;

/// Submits the focused element's form, or else sends it the Enter key events.
pub const PRESS_ENTER: &'static str = r#"
(() => {
    const el = document.activeElement;
    if (!el) return { success: false, error: 'No active element' };
    const form = el.closest('form');
    if (form) {
        form.submit();
        return { success: true, method: 'form.submit' };
    }
    for (const type of ['keydown', 'keypress', 'keyup']) {
        el.dispatchEvent(new KeyboardEvent(type, {
            key: 'Enter', code: 'Enter', keyCode: 13, which: 13, bubbles: true, cancelable: true
        }));
    }
    return { success: true, method: 'keyboard_events' };
})()
"#;

/// Sends the key events for the key given as argument to the focused element.
pub const PRESS_KEY: &'static str = r#"
(key) => {
    const el = document.activeElement || document.body;
    for (const type of ['keydown', 'keypress', 'keyup']) {
        el.dispatchEvent(new KeyboardEvent(type, { key, bubbles: true, cancelable: true }));
    }
    return { success: true };
}
"#;

/// The consent phrases that a cookie banner's accept button is found by.
pub open spec fn cookie_phrases() -> Seq<Seq<char>> {
    seq![
        "Accept all"@, "Accept All"@, "Accept cookies"@, "Accept Cookies"@, "I agree"@, "I Agree"@,
        "Agree"@, "Accept"@, "Got it"@, "OK"@, "Allow all"@, "Allow All"@, "Consent"@, "Continue"@,
        "I accept"@,
    ]
}

pub fn cookie_phrase_list() -> (r: Vec<&'static str>)
    ensures
        r@.map_values(|s: &str| s@) == cookie_phrases(),
{
    let r = vec![
        "Accept all", "Accept All", "Accept cookies", "Accept Cookies", "I agree", "I Agree",
        "Agree", "Accept", "Got it", "OK", "Allow all", "Allow All", "Consent", "Continue",
        "I accept",
    ];
    assert(r@.map_values(|s: &str| s@) =~= cookie_phrases());
    r
}

pub open spec fn hex_digit(d: u32) -> char {
    if d < 10 { ((d + 48) as u8) as char } else { ((d + 87) as u8) as char }
}

/// How a character stands inside a JSON string: quote and backslash behind a
/// backslash, the usual short escapes, other control characters as `\u00xx`,
/// everything else as itself.
pub open spec fn json_escaped(c: char) -> Seq<char> {
    if c == '"' {
        seq!['\\', '"']
    } else if c == '\\' {
        seq!['\\', '\\']
    } else if c == '\u{8}' {
        seq!['\\', 'b']
    } else if c == '\t' {
        seq!['\\', 't']
    } else if c == '\n' {
        seq!['\\', 'n']
    } else if c == '\u{c}' {
        seq!['\\', 'f']
    } else if c == '\r' {
        seq!['\\', 'r']
    } else if (c as u32) < 32 {
        seq!['\\', 'u', '0', '0', hex_digit((c as u32) / 16), hex_digit((c as u32) % 16)]
    } else {
        seq![c]
    }
}

/// The JSON text of a string: in double quotes, each character escaped.
pub open spec fn json_quoted(s: Seq<char>) -> Seq<char> {
    seq!['"'] + s.map_values(|c: char| json_escaped(c)).flatten() + seq!['"']
}

/// Relies on `serde_json::to_string` for `str`, which writes the string as a
/// JSON string literal, escaped by serde_json's table, and cannot fail for it.
#[verifier::external_body]
pub(crate) fn quote_json(s: &str) -> (r: String)
    ensures
        r@ == json_quoted(s@),
{
    serde_json::to_string(s).unwrap_or_default()
}

/// `items` joined with `sep` between each two.
pub open spec fn joined(items: Seq<Seq<char>>, sep: Seq<char>) -> Seq<char>
    decreases items.len(),
{
    if items.len() == 0 {
        Seq::empty()
    } else if items.len() == 1 {
        items[0]
    } else {
        joined(items.drop_last(), sep) + sep + items.last()
    }
}

pub fn join_texts(items: &Vec<String>, sep: &str) -> (r: String)
    ensures
        r@ == joined(items@.map_values(|s: String| s@), sep@),
{
    let ghost v = items@.map_values(|s: String| s@);
    let mut out = String::new();
    let mut i: usize = 0;
    while i < items.len()
        invariant
            0 <= i <= items.len(),
            v == items@.map_values(|s: String| s@),
            out@ == joined(v.take(i as int), sep@),
        decreases items.len() - i,
    {
        proof {
            assert(v.take(i + 1).drop_last() =~= v.take(i as int));
        }
        if i > 0 {
            out.append(sep);
        }
        out.append(items[i].as_str());
        proof {
            if i == 0 {
                assert(v.take(0) =~= Seq::<Seq<char>>::empty());
                assert(out@ =~= v.take(1)[0]);
            }
        }
        i = i + 1;
    }
    assert(v.take(items.len() as int) =~= v);
    out
}

/// A call of the JavaScript function `func` on the arguments, each given as
/// JSON text.
pub open spec fn js_call(func: Seq<char>, args: Seq<Seq<char>>) -> Seq<char> {
    "("@ + func + ")("@ + joined(args, ", "@) + ")"@
}

pub fn build_js_call(func: &str, args: &Vec<String>) -> (r: String)
    ensures
        r@ == js_call(func@, args@.map_values(|s: String| s@)),
{
    let joined_args = join_texts(args, ", ");
    let r = "(".to_owned().concat(func).concat(")(").concat(joined_args.as_str()).concat(")");
    r
}

/// The JSON text of a list of strings.
pub open spec fn json_list(items: Seq<Seq<char>>) -> Seq<char> {
    "["@ + joined(items.map_values(|s: Seq<char>| json_quoted(s)), ","@) + "]"@
}

pub fn list_json(items: &Vec<String>) -> (r: String)
    ensures
        r@ == json_list(items@.map_values(|s: String| s@)),
{
    let mut quoted: Vec<String> = Vec::new();
    let mut i: usize = 0;
    while i < items.len()
        invariant
            0 <= i <= items.len(),
            quoted.len() == i,
            forall|j: int| 0 <= j < i ==> #[trigger] quoted[j]@ == json_quoted(items[j]@),
        decreases items.len() - i,
    {
        quoted.push(quote_json(items[i].as_str()));
        i = i + 1;
    }
    assert(quoted@.map_values(|s: String| s@) =~= items@.map_values(|s: String| s@).map_values(|s: Seq<char>| json_quoted(s)));
    "[".to_owned().concat(join_texts(&quoted, ",").as_str()).concat("]")
}

pub open spec fn json_bool(b: bool) -> Seq<char> {
    if b { "true"@ } else { "false"@ }
}

pub fn bool_json(b: bool) -> (r: String)
    ensures
        r@ == json_bool(b),
{
    if b { "true".to_owned() } else { "false".to_owned() }
}

} // verus!
