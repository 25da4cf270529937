//! The texts of the emails sent to subscribers. Each holds placeholders:
//! `{name}`, and in the confirmation email also `{topic}` and
//! `{confirmation_link}`.
use vstd::prelude::*;

verus! {

/// HTML body of the email that asks a subscriber to confirm the subscription.
pub const CONFIRM_HTML_BODY: &'static str = r#"<!DOCTYPE html>
<html lang="en">
<head>
    <meta charset="UTF-8">
    <meta name="viewport" content="width=device-width, initial-scale=1.0">
    <title>Confirm Your Subscription</title>
    <style>
        body {
            font-family: Arial, sans-serif;
            background-color: #f4f4f4;
            margin: 0;
            padding: 0;
        }
        .container {
            max-width: 600px;
            margin: 0 auto;
            background-color: #ffffff;
            border-radius: 5px;
            box-shadow: 0 0 10px rgba(0, 0, 0, 0.1);
            overflow: hidden;
        }
        .header, .footer {
            text-align: center;
            padding: 20px;
            background-color: #f4f4f4;
        }
        .header img {
            max-width: 150px;
        }
        .content {
            padding: 20px;
            text-align: center;
        }
        .content h1 {
            font-size: 24px;
            color: #333333;
            margin-bottom: 20px;
        }
        .content p {
            font-size: 16px;
            color: #666666;
            margin-bottom: 20px;
        }
        .content a {
            display: inline-block;
            padding: 10px 20px;
            background-color: #28a745;
            color: #ffffff;
            text-decoration: none;
            border-radius: 5px;
            font-size: 16px;
        }
        .footer p {
            font-size: 12px;
            color: #999999;
        }
        .footer a {
            color: #999999;
            text-decoration: underline;
        }
    </style>
</head>
<body>
    <table class="container" role="presentation" cellpadding="0" cellspacing="0" width="100%">
        <tr>
            <td class="header">
                <img src="https://ui.fifthtry.com/-/ui.fifthtry.com/assets/fifthtry.png" alt="Company Logo">
            </td>
        </tr>
        <tr>
            <td class="content">
                <h1>Confirm Your Subscription</h1>
                <p>Hi {name}, Thank you for subscribing {topic}!</p>
                <p>We're thrilled to have you join our community. You're now just one step away from staying updated with our latest news, tips, and exclusive content delivered straight to your inbox.</p>
                <p>Please confirm your subscription by clicking the link below:</p>
                <a href="{confirmation_link}">Confirm Subscription</a>
            </td>
        </tr>
        <tr>
            <td class="footer">
                <p>We respect your privacy and promise to keep your information safe. If you didn't subscribe to this newsletter or have any concerns, please ignore this email or reach out to us at <a href="https://example.com/unsubscribe">help@fifthtry.com</a>.</p>
                <p>&copy; 2024 FifthTry. All rights reserved.</p>
            </td>
        </tr>
    </table>
</body>
</html>
"#;

/// Text body of the email that asks a subscriber to confirm the subscription.
pub const CONFIRM_TEXT_BODY: &'static str = r#"Confirm Your Subscription

Hi {name}, Thank you for subscribing {topic}!
We're thrilled to have you join our community. You're now just one step away from staying updated with our latest news, tips, and exclusive content delivered straight to your inbox.

Please confirm your subscription by clicking the link below:

{confirmation_link}


We respect your privacy and promise to keep your information safe. If you didn't subscribe to this newsletter or have any concerns, please ignore this email or reach out to us at help@fifthtry.com.


© 2024 FifthTry. All rights reserved.
"#;

/// HTML body of the email that welcomes a subscriber.
pub const WELCOME_HTML_BODY: &'static str = r#"<!DOCTYPE html>
<html>
<head>
    <style>
        body {
            font-family: Arial, sans-serif;
            background-color: #f4f4f4;
            margin: 0;
            padding: 0;
        }
        .email-container {
            background-color: #ffffff;
            margin: 20px auto;
            padding: 20px;
            border: 1px solid #cccccc;
            max-width: 600px;
            box-shadow: 0 0 10px rgba(0, 0, 0, 0.1);
        }
        .email-header {
            background-color: #f4f4f4;
            color: #ffffff;
            padding: 10px;
            text-align: center;
        }
        .email-body {
            padding: 20px;
            color: #333333;
        }
        .email-footer {
            background-color: #f4f4f4;
            color: #777777;
            text-align: center;
            padding: 10px;
            font-size: 12px;
        }
        .button {
            text-decoration: none;
        }
        .list-item {
            margin-bottom: 20px;
        }
        .list-item-title {
            font-weight: bold;
            margin-bottom: 5px;
        }
        .list-item-body {
            margin-bottom: 10px;
        }
    </style>
</head>
<body>
    <div class="email-container">
        <table width="100%" cellpadding="0" cellspacing="0">
            <tr>
                <td class="email-header">
                    <img class="logo" src="https://ui.fifthtry.com/-/ui.fifthtry.com/assets/fifthtry.png" alt="Company Logo">
                </td>
            </tr>
            <tr>
                <td class="email-body">
                    <h1>Thank you for subscribing + Start Learning</h1>
            <p>Hi {name}, Thank you for subscribing to the FifthTry newsletter! We're excited to have you on board.</p>
            <p>To get you started, here are some recent highlights and resources you might find useful:</p>
                    <ul>
                        <li class="list-item">
                            <div class="list-item-title">Build and Host Your Website on FifthTry</div>
                            <div class="list-item-body">Create your FifthTry account and start building your website right in your browser.</div>
                            <a href="https://www.fifthtry.com/" class="button">Start here</a>
                        </li>
                        <li class="list-item">
                            <div class="list-item-title">The FifthTry Editor</div>
                            <div class="list-item-body">Our intuitive and easy-to-use online editor for all your fastn projects.</div>
                            <a href="https://www.fifthtry.com/" class="button">Check out</a>
                        </li>
                        <li class="list-item">
                            <div class="list-item-title">Tutorial</div>
                            <div class="list-item-body">Follow this step-by-step guide to build your website using our design system package.</div>
                            <a href="https://www.fifthtry.com/" class="button">Read the tutorial</a>
                        </li>
                    </ul>
                    <p>We’re thrilled to help you on your web development journey. If you have any questions or need assistance, reply to this email.</p>
                    <p>Happy coding!</p>
                    <p>Best regards,</p>
                    <p>The FifthTry Team</p>
                </td>
            </tr>
            <tr>
                <td class="email-footer">
                    <p>&copy; 2024 FifthTry. All rights reserved.</p>
                </td>
            </tr>
        </table>
    </div>
</body>
</html>
"#;

/// Text body of the email that welcomes a subscriber.
pub const WELCOME_TEXT_BODY: &'static str = r#"Thank you for subscribing + Start Learning
Hi {name}, Thank you for subscribing to the FifthTry newsletter! 🎉 We're excited to have you on board.
To get you started, here are some recent highlights and resources you might find useful:

    - Build and Host Your Website on FifthTry.
    - Create your FifthTry account and start building your website right in your browser. Start at www.fifthtry.com.
    - The FifthTry Editor: Our intuitive and easy-to-use online editor for all your fastn projects.
    - Follow this step-by-step guide to build your website using our design system package. Read the tutorial at: fastn-community.github.io/design-system/

We’re thrilled to help you on your web development journey. If you have any questions or need assistance, reply to this email.
Happy coding! 🚀

Best regards,
Team FifthTry

© 2024 FifthTry. All rights reserved.
"#;

} // verus!
