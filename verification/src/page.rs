//! The static confirmation page served to the browser once the loopback
//! listener has captured the redirect.
use vstd::prelude::*;
use vstd::string::StrSliceExecFns;
use vstd::utf8::encode_utf8;

verus! {

/// The text of the confirmation page: a centered card with a success icon,
/// the heading "Authentication successful", a note to return to the app, and
/// a dark-scheme variant.  The page is fixed; nothing in it depends on the
/// captured request.
pub open spec fn callback_page_text() -> Seq<char> {
    (
    r#"<!DOCTYPE html><html lang="en"><head><meta charset="UTF-8"><meta name="viewport" content="width=device-width,initial-scale=1.0"><title>Authentication successful</title><style>*,*::before,*::after{box-sizing:border-box;margin:0;padding:0}body{font-family:"Segoe UI",system-ui,-apple-system,sans-serif;display:flex;align-items:center;justify-content:center;height:100vh;background:#F8F9FF;color:#191C20;-webkit-font-smoothing:antialiased}.card{text-align:center;padding:48px 40px;border-radius:32px;background:#FFF;box-shadow:0 2px 16px rgba(0,0,0,.08);max-width:380px;width:calc(100% - 48px);animation:card-in .4s cubic-bezier(.05,.7,.1,1)}@keyframes card-in{from{opacity:0;transform:scale(.94) translateY(8px)}to{opacity:1;transform:scale(1) translateY(0)}}.icon{margin-bottom:16px}.icon svg{width:48px;height:48px}.icon-success svg{fill:#39608F}h2{font-size:22px;font-weight:500;margin-bottom:8px}p{font-size:14px;color:#43474E;line-height:1.5}.closing{margin-top:24px;font-size:12px;color:#73777F}@media(prefers-color-scheme:dark){body{background:#111418;color:#E1E2E8}.card{background:#1D2024;box-shadow:0 2px 16px rgba(0,0,0,.3)}.icon-success svg{fill:#A2C9FE}p{color:#C3C6CF}.closing{color:#8D9199}}</style></head><body><div class="card"><div class="icon icon-success"><svg xmlns="http://www.w3.org/2000/svg" viewBox="0 -960 960 960"><path d="M480-80q-83 0-156-31.5T197-197q-54-54-85.5-127T80-480q0-83 31.5-156T197-763q54-54 127-85.5T480-880q83 0 156 31.5T763-763q54 54 85.5 127T880-480q0 83-31.5 156T763-197q-54 54-127 85.5T480-80Zm-56-328L300-532l-56 56 180 180 344-344-56-56-288 288Z"/></svg></div><h2>Authentication successful</h2><p>You can close this tab and return to the app.</p></div></body></html>"#
    )@
}

/// The UTF-8 bytes of the confirmation page: what the listener actually
/// sends, and what the `Content-Length` header counts.
pub open spec fn callback_page_bytes() -> Seq<u8> {
    encode_utf8(callback_page_text())
}

/// Renders the confirmation page.
pub fn render_callback_page() -> (r: Vec<u8>)
    ensures
        r@ == callback_page_bytes(),
{
    let page: &str =
    r#"<!DOCTYPE html><html lang="en"><head><meta charset="UTF-8"><meta name="viewport" content="width=device-width,initial-scale=1.0"><title>Authentication successful</title><style>*,*::before,*::after{box-sizing:border-box;margin:0;padding:0}body{font-family:"Segoe UI",system-ui,-apple-system,sans-serif;display:flex;align-items:center;justify-content:center;height:100vh;background:#F8F9FF;color:#191C20;-webkit-font-smoothing:antialiased}.card{text-align:center;padding:48px 40px;border-radius:32px;background:#FFF;box-shadow:0 2px 16px rgba(0,0,0,.08);max-width:380px;width:calc(100% - 48px);animation:card-in .4s cubic-bezier(.05,.7,.1,1)}@keyframes card-in{from{opacity:0;transform:scale(.94) translateY(8px)}to{opacity:1;transform:scale(1) translateY(0)}}.icon{margin-bottom:16px}.icon svg{width:48px;height:48px}.icon-success svg{fill:#39608F}h2{font-size:22px;font-weight:500;margin-bottom:8px}p{font-size:14px;color:#43474E;line-height:1.5}.closing{margin-top:24px;font-size:12px;color:#73777F}@media(prefers-color-scheme:dark){body{background:#111418;color:#E1E2E8}.card{background:#1D2024;box-shadow:0 2px 16px rgba(0,0,0,.3)}.icon-success svg{fill:#A2C9FE}p{color:#C3C6CF}.closing{color:#8D9199}}</style></head><body><div class="card"><div class="icon icon-success"><svg xmlns="http://www.w3.org/2000/svg" viewBox="0 -960 960 960"><path d="M480-80q-83 0-156-31.5T197-197q-54-54-85.5-127T80-480q0-83 31.5-156T197-763q54-54 127-85.5T480-880q83 0 156 31.5T763-763q54 54 85.5 127T880-480q0 83-31.5 156T763-197q-54 54-127 85.5T480-80Zm-56-328L300-532l-56 56 180 180 344-344-56-56-288 288Z"/></svg></div><h2>Authentication successful</h2><p>You can close this tab and return to the app.</p></div></body></html>"#;
    page.as_bytes_vec()
}

} // verus!
