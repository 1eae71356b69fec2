//! The two legal pages: fixed texts, each in the frame of a page.

use vstd::prelude::*;
use vstd::string::StringExecFns;
use crate::components::{Component, Page, PageContainer};

verus! {

pub const PRIVACY_POLICY: &'static str = r#"
        <div class="prose bg-slate-300 rounded p-2 md:p-4">
            <h1>Privacy Policy</h1>
            <p>
                Orton-Gillingham (OG) Lesson Planner will never share user data
                with a third party for any reason. This includes the email
                address you share with us, as well as user data generated while
                using the tool. Data is encrypted in-transit, and secured from
                unauthorized access at rest. Contact us at <a
                href="mailto:jdevries3133@gmail.com">jdevries3133@gmail.com</a>
                to request deletion or export of your OG Lesson Planner account
                and associated user data.
            </p>
        </div>
        "#;

/// The privacy policy.
pub struct PrivacyPolicy;

impl Component for PrivacyPolicy {
    open spec fn markup(&self) -> Seq<char> {
        PRIVACY_POLICY@
    }

    fn render(&self) -> (html: String) {
        String::from_str(PRIVACY_POLICY)
    }
}

pub const TERMS_OF_SERVICE: &'static str = r#"
        <div class="prose bg-slate-300 rounded p-2 md:p-4">
            <h1>Terms of Service</h1>
            <p>
              This document outlines the terms and conditions under which users
              may access and use the Orton-Gillingham (OG) Lesson Planner. This
              tool is a free and open-source project from New Jersey. By
              accessing or using the services, you agree to be bound by these
              terms. If you do not agree with any part of these terms, please
              do not use the website.
            </p>

            <h2>1. Acceptance of Terms</h2>
            <p>
              By using the services provided by OG Lesson Planner, you
              acknowledge that you have read, understood, and agree to be bound
              by these terms of service.
            </p>

            <h2>2. Service Description</h2>
            <p>
              OG Lesson Planner is a tool to help create lesson plans using the
              Orton-Gillingham methodology.
            </p>

            <h2>3. User Accounts</h2>
            <p>
              Users must create an account to access the service. You are
              responsible for maintaining the confidentiality of your account
              information, including your password.
            </p>

            <h2>4. Payment and Subscription</h2>
            <p>
              This tool is made available for free, however the tool creators
              reserve the right to begin charging for services at any time
              without advance notice.
            </p>

            <h2>Subscription Cancellation</h2>
            <p>
              No subscription is available at this time. Contact
              <a href="mailto:jdevries3133@gmail.com">jdevries3133@gmail.com</a>
              to request account deletion or export of your user data.
            </p>

            <h2>5. User Conduct</h2>
            <p>
              Users agree to use the service in a lawful and responsible
              manner. Any misuse or unauthorized use may result in the
              termination of your account.
            </p>

            <h2>6. Intellectual Property</h2>
            <p>
              This is a free and open-source project made generally available
              under the Affero General Public License (AGPL). See <a
              href="https://github.com/jdevries3133/og">our source
              code repository on GitHub</a> for details.
            </p>

            <h2>7. Limitation of Liability</h2>
            <p>
              Orton-Gillingham planner is not liable for any direct, indirect,
              incidental, consequential, or punitive damages arising out of the
              use or inability to use the service.
            </p>

            <h2>8. Termination of Services</h2>
            <p>
              We reserves the right to terminate or suspend access to the
              service at our discretion, without notice, for any reason,
              including but not limited to a breach of these terms.
            </p>

            <h2>9. Changes to Terms</h2>
            <p>
              We reserves the right to modify or update these terms of service
              at any time. Users will be notified of significant changes, and
              continued use of the services after such modifications
              constitutes acceptance of the updated terms.
            </p>

            <p>
              By using the service, you agree to abide by these terms of
              service. If you have any questions or concerns, please contact us
              at <a
              href="mailto:jdevries3133@gmail.com">jdevries3133@gmail.com</a>.
            </p>
        </div>
        "#;

/// The terms of service.
pub struct Tos;

impl Component for Tos {
    open spec fn markup(&self) -> Seq<char> {
        TERMS_OF_SERVICE@
    }

    fn render(&self) -> (html: String) {
        String::from_str(TERMS_OF_SERVICE)
    }
}

/// The markup of a page that holds one component in the usual frame.
pub open spec fn framed(title: Seq<char>, stylesheet: Seq<char>, content: Seq<char>) -> Seq<char> {
    crate::components::PAGE_OPEN@ + crate::markup::escaped(title) + crate::components::PAGE_AFTER_TITLE@
        + stylesheet + crate::components::PAGE_AFTER_STYLES@
        + crate::markup::Route::StaticManifest.address() + crate::components::PAGE_AFTER_MANIFEST@
        + crate::markup::Route::StaticAppleIcon.address()
        + crate::components::PAGE_AFTER_APPLE_ICON@ + crate::markup::Route::Htmx.address()
        + crate::components::PAGE_AFTER_HTMX@ + (crate::components::CONTAINER_OPEN@ + content
        + crate::components::CONTAINER_AFTER_CHILDREN@ + crate::components::Footer.markup()
        + crate::components::CONTAINER_AFTER_FOOTER@) + crate::components::PAGE_AFTER_BODY@
}

/// The page that shows the privacy policy.
pub fn get_privacy_policy(stylesheet: &str) -> (html: String)
    ensures
        html@ == framed("Privacy Policy"@, stylesheet@, PRIVACY_POLICY@),
{
    let content = PrivacyPolicy;
    let container = PageContainer { children: &content };
    Page { title: "Privacy Policy", stylesheet, children: &container }.render()
}

/// The page that shows the terms of service.
pub fn get_tos(stylesheet: &str) -> (html: String)
    ensures
        html@ == framed("Terms of Service"@, stylesheet@, TERMS_OF_SERVICE@),
{
    let content = Tos;
    let container = PageContainer { children: &content };
    Page { title: "Terms of Service", stylesheet, children: &container }.render()
}

} // verus!
