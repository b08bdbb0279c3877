//! The manual trust-store installation instructions for the local CA
//! certificate, localized per platform.  Installing the certificate is the
//! user's action; this only tells them how.

use vstd::prelude::*;

verus! {

/// The platform the instructions are written for.
#[derive(Clone, Copy, PartialEq, Eq, Structural)]
pub enum Platform {
    MacOs,
    Windows,
    Linux,
    Other,
}

/// The instruction text for each platform.
pub open spec fn spec_install_instructions(platform: Platform) -> Seq<char> {
    match platform {
        Platform::MacOs => "## macOS 安装 CA 证书\n\n1. 双击打开 CA 证书文件（ca.crt）\n2. 在\"钥匙串访问\"中选择\"登录\"钥匙串\n3. 找到 \"Cavin Tools Local CA\" 证书\n4. 双击证书，展开\"信任\"选项\n5. 将\"使用此证书时\"改为\"始终信任\"\n6. 关闭窗口，输入密码确认\n\n或使用命令行：\n```bash\nsudo security add-trusted-cert -d -r trustRoot -k /Library/Keychains/System.keychain ca.crt\n```"@,
        Platform::Windows => "## Windows 安装 CA 证书\n\n1. 双击打开 CA 证书文件（ca.crt）\n2. 点击\"安装证书\"\n3. 选择\"本地计算机\"，点击下一步\n4. 选择\"将所有证书放入下列存储\"\n5. 点击\"浏览\"，选择\"受信任的根证书颁发机构\"\n6. 点击下一步，然后完成\n\n或使用命令行（管理员权限）：\n```powershell\ncertutil -addstore -f \"ROOT\" ca.crt\n```"@,
        Platform::Linux => "## Linux 安装 CA 证书\n\n### Ubuntu/Debian:\n```bash\nsudo cp ca.crt /usr/local/share/ca-certificates/cavin-tools-ca.crt\nsudo update-ca-certificates\n```\n\n### Fedora/RHEL/CentOS:\n```bash\nsudo cp ca.crt /etc/pki/ca-trust/source/anchors/cavin-tools-ca.crt\nsudo update-ca-trust\n```\n\n### Arch Linux:\n```bash\nsudo trust anchor --store ca.crt\n```\n\n### 浏览器单独配置:\nChrome/Firefox 可能需要在浏览器设置中单独导入证书"@,
        Platform::Other => "请查阅您操作系统的文档了解如何安装 CA 证书"@,
    }
}

/// How to install the CA certificate into the platform's trust store.
pub fn get_install_instructions(platform: Platform) -> (r: String)
    ensures
        r@ == spec_install_instructions(platform),
{
    let s: &str = match platform {
        Platform::MacOs => "## macOS 安装 CA 证书\n\n1. 双击打开 CA 证书文件（ca.crt）\n2. 在\"钥匙串访问\"中选择\"登录\"钥匙串\n3. 找到 \"Cavin Tools Local CA\" 证书\n4. 双击证书，展开\"信任\"选项\n5. 将\"使用此证书时\"改为\"始终信任\"\n6. 关闭窗口，输入密码确认\n\n或使用命令行：\n```bash\nsudo security add-trusted-cert -d -r trustRoot -k /Library/Keychains/System.keychain ca.crt\n```",
        Platform::Windows => "## Windows 安装 CA 证书\n\n1. 双击打开 CA 证书文件（ca.crt）\n2. 点击\"安装证书\"\n3. 选择\"本地计算机\"，点击下一步\n4. 选择\"将所有证书放入下列存储\"\n5. 点击\"浏览\"，选择\"受信任的根证书颁发机构\"\n6. 点击下一步，然后完成\n\n或使用命令行（管理员权限）：\n```powershell\ncertutil -addstore -f \"ROOT\" ca.crt\n```",
        Platform::Linux => "## Linux 安装 CA 证书\n\n### Ubuntu/Debian:\n```bash\nsudo cp ca.crt /usr/local/share/ca-certificates/cavin-tools-ca.crt\nsudo update-ca-certificates\n```\n\n### Fedora/RHEL/CentOS:\n```bash\nsudo cp ca.crt /etc/pki/ca-trust/source/anchors/cavin-tools-ca.crt\nsudo update-ca-trust\n```\n\n### Arch Linux:\n```bash\nsudo trust anchor --store ca.crt\n```\n\n### 浏览器单独配置:\nChrome/Firefox 可能需要在浏览器设置中单独导入证书",
        Platform::Other => "请查阅您操作系统的文档了解如何安装 CA 证书",
    };
    s.to_owned()
}

} // verus!
