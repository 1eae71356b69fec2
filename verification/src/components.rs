//! The components that pages are composed of. Each renders itself to markup,
//! and cleans every text it was given as it does so.

use vstd::prelude::*;
use vstd::string::StringExecFns;
use crate::markup::{clean, decimal_text, escaped, write_decimal, Route};

verus! {

/// Something that renders to markup. Components nest: one that holds
/// another renders it in its place.
pub trait Component: Send + Sync {
    /// The markup that the component stands for.
    spec fn markup(&self) -> Seq<char>;

    /// Renders the component to markup. Every text that the component was
    /// given is cleaned on the way.
    fn render(&self) -> (html: String)
        ensures
            html@ == self.markup(),
    ;
}

pub const PAGE_OPEN: &'static str = r##"<!DOCTYPE html>
            <html lang="en">
                <head>
                    <meta charset="UTF-8">
                    <meta name="viewport" content="width=device-width, initial-scale=1.0"></meta>
                    <meta name="theme-color" content="#BBF7D0"/>
                    <meta name="description" content="ChatGPT-powered calorie counter" />
                    <title>"##;

pub const PAGE_AFTER_TITLE: &'static str = r#"</title>
                    <style>
                        "#;

pub const PAGE_AFTER_STYLES: &'static str = r#"
                    </style>
                    
                    <link rel="manifest" href=""#;

pub const PAGE_AFTER_MANIFEST: &'static str = r#"" />
                    <link rel="apple-touch-icon" href=""#;

pub const PAGE_AFTER_APPLE_ICON: &'static str = r#"">
                    <script defer src=""#;

pub const PAGE_AFTER_HTMX: &'static str = r#""></script>
                </head>
                <body hx-boost="true">
                    "#;

pub const PAGE_AFTER_BODY: &'static str = r#"
                </body>
            </html>
            "#;

/// A whole document: head, styles, scripts, and the children as its body.
pub struct Page<'a> {
    pub title: &'a str,
    /// The style sheet, embedded as it is.
    pub stylesheet: &'a str,
    pub children: &'a dyn Component,
}

impl Component for Page<'_> {
    open spec fn markup(&self) -> Seq<char> {
        PAGE_OPEN@ + escaped(self.title@) + PAGE_AFTER_TITLE@ + self.stylesheet@ + PAGE_AFTER_STYLES@
            + Route::StaticManifest.address() + PAGE_AFTER_MANIFEST@
            + Route::StaticAppleIcon.address() + PAGE_AFTER_APPLE_ICON@ + Route::Htmx.address()
            + PAGE_AFTER_HTMX@ + self.children.markup() + PAGE_AFTER_BODY@
    }

    fn render(&self) -> (html: String) {
        let mut html = String::from_str(PAGE_OPEN);
        html.append(clean(self.title).as_str());
        html.append(PAGE_AFTER_TITLE);
        html.append(self.stylesheet);
        html.append(PAGE_AFTER_STYLES);
        html.append(Route::StaticManifest.as_str());
        html.append(PAGE_AFTER_MANIFEST);
        html.append(Route::StaticAppleIcon.as_str());
        html.append(PAGE_AFTER_APPLE_ICON);
        html.append(Route::Htmx.as_str());
        html.append(PAGE_AFTER_HTMX);
        html.append(self.children.render().as_str());
        html.append(PAGE_AFTER_BODY);
        html
    }
}

pub const FOOTER_OPEN: &'static str = r#"
            <footer class="flex flex-wrap items-center justify-center gap-2 p-4">
                <a class="link" href=""#;

pub const FOOTER_AFTER_PRIVACY: &'static str = r#"">Privacy Policy</a>
                <a class="link" href=""#;

pub const FOOTER_AFTER_TOS: &'static str = r#"">Terms of Service</a>
                <a class="link" href=""#;

pub const FOOTER_AFTER_HOME: &'static str = r#"">Dashboard</a>
                <a class="link" href="/">Home</a>
                <a class="link" href=""#;

pub const FOOTER_AFTER_ABOUT: &'static str = r#"">About</a>
            </footer>
            "#;

/// The links at the foot of every page.
pub struct Footer;

impl Component for Footer {
    open spec fn markup(&self) -> Seq<char> {
        FOOTER_OPEN@ + Route::PrivacyPolicy.address() + FOOTER_AFTER_PRIVACY@
            + Route::TermsOfService.address() + FOOTER_AFTER_TOS@ + Route::UserHome.address()
            + FOOTER_AFTER_HOME@ + Route::About.address() + FOOTER_AFTER_ABOUT@
    }

    fn render(&self) -> (html: String) {
        let mut html = String::from_str(FOOTER_OPEN);
        html.append(Route::PrivacyPolicy.as_str());
        html.append(FOOTER_AFTER_PRIVACY);
        html.append(Route::TermsOfService.as_str());
        html.append(FOOTER_AFTER_TOS);
        html.append(Route::UserHome.as_str());
        html.append(FOOTER_AFTER_HOME);
        html.append(Route::About.as_str());
        html.append(FOOTER_AFTER_ABOUT);
        html
    }
}

pub const CONTAINER_OPEN: &'static str = r#"
            <div
                class="p-2 sm:p-4 md:p-8 bg-teal-50 dark:bg-indigo-1000
                dark:text-slate-200 min-h-[100vh]"
            >
                "#;

pub const CONTAINER_AFTER_CHILDREN: &'static str = r#"
                "#;

pub const CONTAINER_AFTER_FOOTER: &'static str = r#"
            </div>
            "#;

/// The frame around a page's content, with the footer below it.
pub struct PageContainer<'a> {
    pub children: &'a dyn Component,
}

impl Component for PageContainer<'_> {
    open spec fn markup(&self) -> Seq<char> {
        CONTAINER_OPEN@ + self.children.markup() + CONTAINER_AFTER_CHILDREN@ + Footer.markup()
            + CONTAINER_AFTER_FOOTER@
    }

    fn render(&self) -> (html: String) {
        let mut html = String::from_str(CONTAINER_OPEN);
        html.append(self.children.render().as_str());
        html.append(CONTAINER_AFTER_CHILDREN);
        html.append(Footer.render().as_str());
        html.append(CONTAINER_AFTER_FOOTER);
        html
    }
}

pub const HOME_OPEN: &'static str = r#"
            <main
                class="p-2 sm:p-4 md:p-8 bg-teal-50 dark:bg-indigo-1000
                dark:text-slate-200 min-h-[100vh]"
            >
                <h1 class="mt-2 md:mt-8 text-3xl font-extrabold">
                    &#127793; OG &#129752;
                </h1>
                <p>
                    Orton-Gillingham Lesson Planner
                </p>
                <a class="link" href=""#;

pub const HOME_AFTER_LOGIN: &'static str = r#"">Login</a>
                <a class="link" href=""#;

pub const HOME_AFTER_REGISTER: &'static str = r#"">Register</a>
            </main>
            "#;

pub const HOME_AFTER_FOOTER: &'static str = r#"
            "#;

/// The landing page for visitors who are not logged in.
pub struct Home {}

impl Component for Home {
    open spec fn markup(&self) -> Seq<char> {
        HOME_OPEN@ + Route::Login.address() + HOME_AFTER_LOGIN@ + Route::Register.address()
            + HOME_AFTER_REGISTER@ + Footer.markup() + HOME_AFTER_FOOTER@
    }

    fn render(&self) -> (html: String) {
        let mut html = String::from_str(HOME_OPEN);
        html.append(Route::Login.as_str());
        html.append(HOME_AFTER_LOGIN);
        html.append(Route::Register.as_str());
        html.append(HOME_AFTER_REGISTER);
        html.append(Footer.render().as_str());
        html.append(HOME_AFTER_FOOTER);
        html
    }
}

pub const COUNTER_OPEN: &'static str = r#"
            <span hx-trigger="load delay:5s">"#;

pub const COUNTER_AFTER_COUNT: &'static str = r#"</span>
            "#;

/// How many trial accounts are left to give out.
pub struct TrialAccountCounter {
    pub count_remaining: usize,
}

impl Component for TrialAccountCounter {
    open spec fn markup(&self) -> Seq<char> {
        COUNTER_OPEN@ + decimal_text(self.count_remaining as nat) + COUNTER_AFTER_COUNT@
    }

    fn render(&self) -> (html: String) {
        let mut html = String::from_str(COUNTER_OPEN);
        write_decimal(&mut html, self.count_remaining);
        html.append(COUNTER_AFTER_COUNT);
        html
    }
}

pub const LINK_OPEN: &'static str = r#"
            <a href="#;

pub const LINK_AFTER_HREF: &'static str = r#">
                "#;

pub const LINK_AFTER_CHILDREN: &'static str = r#"
                <svg xmlns="http://www.w3.org/2000/svg" fill="none" viewBox="0 0 24 24" stroke-width="1.5" stroke="currentColor" class="w-3 h-3 inline">
                  <path stroke-linecap="round" stroke-linejoin="round" d="M4.5 19.5l15-15m0 0H8.25m11.25 0v11.25" />
                </svg>
            </a>
            "#;

/// A link that leaves the site, marked with an arrow.
pub struct ExternalLink<'a> {
    pub href: &'a str,
    pub children: Box<dyn Component>,
}

impl Component for ExternalLink<'_> {
    open spec fn markup(&self) -> Seq<char> {
        LINK_OPEN@ + escaped(self.href@) + LINK_AFTER_HREF@ + self.children.markup()
            + LINK_AFTER_CHILDREN@
    }

    fn render(&self) -> (html: String) {
        let mut html = String::from_str(LINK_OPEN);
        html.append(clean(self.href).as_str());
        html.append(LINK_AFTER_HREF);
        html.append(self.children.render().as_str());
        html.append(LINK_AFTER_CHILDREN);
        html
    }
}

pub const REGISTER_UI_OPEN: &'static str = r#"
            <p class="text-sm">
                You are an anonymous user. It was quick and easy to jump into
                the app, but you should register for an account to create a
                username and password. Your user ID won't change, so you'll
                retain ownership of any data you create while anonymously
                trying the app if you convert into a user.
            </p>
            <p class="text-sm">
                Note that if you allow an anonymous user to sign out, they will
                lose everything, so try to avoid that! I normally hide the
                "log out" button from anonymous users, and only show it after
                registration.
            </p>
            <a href=""#;

pub const REGISTER_UI_AFTER_REGISTER: &'static str = r#"">
                <button class="bg-emerald-100 hover:bg-emerald-200 rounded p-1">
                    Register
                </button>
            </a>
            "#;

pub const USER_HOME_OPEN: &'static str = r#"
            <div class="flex flex-col prose">
                Hi, "#;

pub const USER_HOME_AFTER_USERNAME: &'static str = r#"!
                <a class="link" href=""#;

pub const USER_HOME_AFTER_LOGOUT: &'static str = r#"">Log Out</a>
                "#;

pub const USER_HOME_AFTER_INVITATION: &'static str = r#"
            </div>
            "#;

/// The page that greets a user who is logged in.
pub struct UserHome<'a> {
    pub username: &'a str,
    /// Whether the user has not registered yet: such a user is invited to.
    pub anonymous: bool,
}

impl UserHome<'_> {
    /// The invitation to register, shown to anonymous users only.
    pub open spec fn invitation(&self) -> Seq<char> {
        if self.anonymous {
            REGISTER_UI_OPEN@ + Route::Register.address() + REGISTER_UI_AFTER_REGISTER@
        } else {
            Seq::empty()
        }
    }
}

impl Component for UserHome<'_> {
    open spec fn markup(&self) -> Seq<char> {
        USER_HOME_OPEN@ + escaped(self.username@) + USER_HOME_AFTER_USERNAME@
            + Route::Logout.address() + USER_HOME_AFTER_LOGOUT@ + self.invitation()
            + USER_HOME_AFTER_INVITATION@
    }

    fn render(&self) -> (html: String) {
        let mut html = String::from_str(USER_HOME_OPEN);
        html.append(clean(self.username).as_str());
        html.append(USER_HOME_AFTER_USERNAME);
        html.append(Route::Logout.as_str());
        html.append(USER_HOME_AFTER_LOGOUT);
        let ghost greeting = html@;
        if self.anonymous {
            html.append(REGISTER_UI_OPEN);
            html.append(Route::Register.as_str());
            html.append(REGISTER_UI_AFTER_REGISTER);
        }
        assert(html@ =~= greeting + self.invitation());
        html.append(USER_HOME_AFTER_INVITATION);
        html
    }
}

pub const SAVED_OPEN: &'static str = r#"
            <div
                hx-get=""#;

pub const SAVED_AFTER_VOID: &'static str = r#""
                hx-trigger="load delay:2s"
                class="fixed top-2 my-2 bg-slate-200 dark:bg-emerald-800 p-2
                rounded-xl"
                >
                <svg
                    xmlns="http://www.w3.org/2000/svg"
                    fill="none"
                    viewBox="0 0 24 24"
                    stroke-width="1.5"
                    stroke="currentColor"
                    class="inline bg-emerald-100 dark:bg-emerald-600 p-2
                    rounded-full w-8 h-8"
                >
                  <path stroke-linecap="round" stroke-linejoin="round" d="M4.5 12.75l6 6 9-13.5" />
                </svg>
                "#;

pub const SAVED_AFTER_MESSAGE: &'static str = r#"
            </div>
            "#;

/// A notice that something was saved, which goes away by itself.
pub struct Saved<'a> {
    pub message: &'a str,
}

impl Component for Saved<'_> {
    open spec fn markup(&self) -> Seq<char> {
        SAVED_OPEN@ + Route::Void.address() + SAVED_AFTER_VOID@ + escaped(self.message@)
            + SAVED_AFTER_MESSAGE@
    }

    fn render(&self) -> (html: String) {
        let mut html = String::from_str(SAVED_OPEN);
        html.append(Route::Void.as_str());
        html.append(SAVED_AFTER_VOID);
        html.append(clean(self.message).as_str());
        html.append(SAVED_AFTER_MESSAGE);
        html
    }
}

pub const ABOUT_OPEN: &'static str = r#"
            <div class="prose dark:text-slate-200">
                <h1 class="dark:text-slate-200">About Your App</h1>
                <p><a class="link" href=""#;

pub const ABOUT_AFTER_HOME: &'static str = r#"">Return Home</a></p>
                <p>
                    Tell the world about your app!
                </p>
            </div>
            "#;

/// The page about the application.
pub struct AboutPage;

impl Component for AboutPage {
    open spec fn markup(&self) -> Seq<char> {
        ABOUT_OPEN@ + Route::UserHome.address() + ABOUT_AFTER_HOME@
    }

    fn render(&self) -> (html: String) {
        let mut html = String::from_str(ABOUT_OPEN);
        html.append(Route::UserHome.as_str());
        html.append(ABOUT_AFTER_HOME);
        html
    }
}

pub const ANON_OPEN: &'static str = r#"
            <div class="flex items-center justify-center">
                <a href=""#;

pub const ANON_AFTER_REGISTER: &'static str = r#"">
                    <div
                        class="text-black text-xs inline-block bg-yellow-100
                        p-1 rounded-lg my-2 max-w-prose"
                    >
                        <h1 class="text-lg font-bold text-center">
                            Anon Warning
                        </h1>
                        <p class="text-base">
                            You're still registered as an anonymous user, which
                            means that you haven't shared a username, email, or
                            password. If you reset your cookies, move to a
                            different device, or loose your device, your account
                            cannot be recovered! Click here to register your
                            account so that you can create a password, login on
                            multiple devices, or use your email to recover your
                            account in case you forget your password.
                        </p>
                        <p class="text-lg">Click here to register!</p
                        >
                    </div>
                </a>
            </div>
            "#;

/// The warning shown to users who have not registered yet.
pub struct AnonWarning;

impl Component for AnonWarning {
    open spec fn markup(&self) -> Seq<char> {
        ANON_OPEN@ + Route::Register.address() + ANON_AFTER_REGISTER@
    }

    fn render(&self) -> (html: String) {
        let mut html = String::from_str(ANON_OPEN);
        html.append(Route::Register.as_str());
        html.append(ANON_AFTER_REGISTER);
        html
    }
}

pub const SPAN_OPEN: &'static str = "<span>";

pub const SPAN_CLOSE: &'static str = "</span>";

/// A run of text.
pub struct Span {
    pub content: String,
}

impl Component for Span {
    open spec fn markup(&self) -> Seq<char> {
        SPAN_OPEN@ + escaped(self.content@) + SPAN_CLOSE@
    }

    fn render(&self) -> (html: String) {
        let mut html = String::from_str(SPAN_OPEN);
        html.append(clean(self.content.as_str()).as_str());
        html.append(SPAN_CLOSE);
        html
    }
}

} // verus!
