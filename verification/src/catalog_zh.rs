use vstd::prelude::*;

use crate::strings::str_equal;

verus! {

/// Chinese catalog, entries 1 to 40 of the catalog, first match wins.
pub open spec fn zh_block_0(key: Seq<char>) -> Option<Seq<char>> {
    if key == "overview"@ {
        Some("概览"@)
    } else if key == "navigation_collapse"@ {
        Some("收起导航"@)
    } else if key == "navigation_expand"@ {
        Some("展开导航"@)
    } else if key == "overview_na"@ {
        Some("暂无"@)
    } else if key == "overview_copy_hint"@ {
        Some("点击复制"@)
    } else if key == "copied"@ {
        Some("已复制"@)
    } else if key == "overview_not_loaded"@ {
        Some("概览数据尚未加载，点击顶部「刷新」获取。"@)
    } else if key == "overview_unauthorized"@ {
        Some("请在设备上允许 USB 调试授权，然后刷新。"@)
    } else if key == "overview_offline"@ {
        Some("设备处于离线状态，请重新连接或重启 ADB。"@)
    } else if key == "overview_unknown_state"@ {
        Some("设备处于不受支持的 ADB 状态。"@)
    } else if key == "overview_cpu_cores"@ {
        Some("核"@)
    } else if key == "overview_field_name"@ {
        Some("名称"@)
    } else if key == "overview_field_brand"@ {
        Some("品牌"@)
    } else if key == "overview_field_model"@ {
        Some("型号"@)
    } else if key == "overview_field_serial"@ {
        Some("序列号"@)
    } else if key == "overview_field_android"@ {
        Some("Android 版本"@)
    } else if key == "overview_field_kernel"@ {
        Some("内核版本"@)
    } else if key == "overview_field_cpu"@ {
        Some("处理器"@)
    } else if key == "overview_field_memory"@ {
        Some("内存"@)
    } else if key == "overview_field_storage"@ {
        Some("存储"@)
    } else if key == "overview_field_battery"@ {
        Some("电量"@)
    } else if key == "overview_field_physical"@ {
        Some("物理分辨率"@)
    } else if key == "overview_field_resolution"@ {
        Some("分辨率"@)
    } else if key == "overview_field_font"@ {
        Some("字体缩放"@)
    } else if key == "overview_field_wifi"@ {
        Some("Wi-Fi"@)
    } else if key == "overview_field_ip"@ {
        Some("IP 地址"@)
    } else if key == "overview_field_mac"@ {
        Some("MAC 地址"@)
    } else if key == "files"@ {
        Some("文件"@)
    } else if key == "applications"@ {
        Some("应用"@)
    } else if key == "processes"@ {
        Some("进程"@)
    } else if key == "performance"@ {
        Some("性能"@)
    } else if key == "shell"@ {
        Some("终端"@)
    } else if key == "layout"@ {
        Some("布局"@)
    } else if key == "screenshot"@ {
        Some("截图"@)
    } else if key == "logcat"@ {
        Some("日志"@)
    } else if key == "webview"@ {
        Some("网页"@)
    } else if key == "select_device"@ {
        Some("选择设备"@)
    } else if key == "no_device"@ {
        Some("未连接设备"@)
    } else if key == "refresh"@ {
        Some("刷新"@)
    } else if key == "stop"@ {
        Some("停止"@)
    } else {
        None
    }
}

/// Looks `key` up in block 0 of the chinese catalog.
fn lookup_zh_block_0(key: &str) -> (found: Option<&'static str>)
    ensures
        match found {
            Some(t) => zh_block_0(key@) == Some(t@),
            None => zh_block_0(key@) is None,
        },
{
    if str_equal(key, "overview") {
        return Some("概览");
    }
    if str_equal(key, "navigation_collapse") {
        return Some("收起导航");
    }
    if str_equal(key, "navigation_expand") {
        return Some("展开导航");
    }
    if str_equal(key, "overview_na") {
        return Some("暂无");
    }
    if str_equal(key, "overview_copy_hint") {
        return Some("点击复制");
    }
    if str_equal(key, "copied") {
        return Some("已复制");
    }
    if str_equal(key, "overview_not_loaded") {
        return Some("概览数据尚未加载，点击顶部「刷新」获取。");
    }
    if str_equal(key, "overview_unauthorized") {
        return Some("请在设备上允许 USB 调试授权，然后刷新。");
    }
    if str_equal(key, "overview_offline") {
        return Some("设备处于离线状态，请重新连接或重启 ADB。");
    }
    if str_equal(key, "overview_unknown_state") {
        return Some("设备处于不受支持的 ADB 状态。");
    }
    if str_equal(key, "overview_cpu_cores") {
        return Some("核");
    }
    if str_equal(key, "overview_field_name") {
        return Some("名称");
    }
    if str_equal(key, "overview_field_brand") {
        return Some("品牌");
    }
    if str_equal(key, "overview_field_model") {
        return Some("型号");
    }
    if str_equal(key, "overview_field_serial") {
        return Some("序列号");
    }
    if str_equal(key, "overview_field_android") {
        return Some("Android 版本");
    }
    if str_equal(key, "overview_field_kernel") {
        return Some("内核版本");
    }
    if str_equal(key, "overview_field_cpu") {
        return Some("处理器");
    }
    if str_equal(key, "overview_field_memory") {
        return Some("内存");
    }
    if str_equal(key, "overview_field_storage") {
        return Some("存储");
    }
    if str_equal(key, "overview_field_battery") {
        return Some("电量");
    }
    if str_equal(key, "overview_field_physical") {
        return Some("物理分辨率");
    }
    if str_equal(key, "overview_field_resolution") {
        return Some("分辨率");
    }
    if str_equal(key, "overview_field_font") {
        return Some("字体缩放");
    }
    if str_equal(key, "overview_field_wifi") {
        return Some("Wi-Fi");
    }
    if str_equal(key, "overview_field_ip") {
        return Some("IP 地址");
    }
    if str_equal(key, "overview_field_mac") {
        return Some("MAC 地址");
    }
    if str_equal(key, "files") {
        return Some("文件");
    }
    if str_equal(key, "applications") {
        return Some("应用");
    }
    if str_equal(key, "processes") {
        return Some("进程");
    }
    if str_equal(key, "performance") {
        return Some("性能");
    }
    if str_equal(key, "shell") {
        return Some("终端");
    }
    if str_equal(key, "layout") {
        return Some("布局");
    }
    if str_equal(key, "screenshot") {
        return Some("截图");
    }
    if str_equal(key, "logcat") {
        return Some("日志");
    }
    if str_equal(key, "webview") {
        return Some("网页");
    }
    if str_equal(key, "select_device") {
        return Some("选择设备");
    }
    if str_equal(key, "no_device") {
        return Some("未连接设备");
    }
    if str_equal(key, "refresh") {
        return Some("刷新");
    }
    if str_equal(key, "stop") {
        return Some("停止");
    }
    None
}

/// Chinese catalog, entries 41 to 80 of the catalog, first match wins.
pub open spec fn zh_block_1(key: Seq<char>) -> Option<Seq<char>> {
    if key == "start"@ {
        Some("开始"@)
    } else if key == "device_manager"@ {
        Some("设备管理"@)
    } else if key == "diagnostics"@ {
        Some("ADB 信息"@)
    } else if key == "appearance"@ {
        Some("外观"@)
    } else if key == "theme"@ {
        Some("主题"@)
    } else if key == "language"@ {
        Some("语言"@)
    } else if key == "open"@ {
        Some("打开"@)
    } else if key == "details"@ {
        Some("详情"@)
    } else if key == "hide"@ {
        Some("收起"@)
    } else if key == "adb_executable"@ {
        Some("ADB 可执行文件"@)
    } else if key == "adb.fadb_adb_invalid"@ {
        Some("环境变量 FADB_ADB 指向的文件不存在"@)
    } else if key == "adb_download"@ {
        Some("官方下载"@)
    } else if key == "adb_download_link"@ {
        Some("Android 开发者网站"@)
    } else if key == "version"@ {
        Some("版本"@)
    } else if key == "detected_devices"@ {
        Some("已检测到的设备"@)
    } else if key == "unknown"@ {
        Some("未知"@)
    } else if key == "adb_not_available"@ {
        Some("不可用；可能启用了模拟数据"@)
    } else if key == "adb_env_hint"@ {
        Some("设置 FADB_ADB 可指定 adb 可执行文件路径；设置 FADB_FAKE=1 可启用确定性开发数据。"@)
    } else if key == "coming_soon"@ {
        Some("后续里程碑开发"@)
    } else if key == "explicit_selection"@ {
        Some("为避免误操作，Fadb 不会自动选择设备。"@)
    } else if key == "loading"@ {
        Some("正在读取设备信息…"@)
    } else if key == "light"@ {
        Some("浅色"@)
    } else if key == "dark"@ {
        Some("深色"@)
    } else if key == "settings"@ {
        Some("设置"@)
    } else if key == "about"@ {
        Some("关于"@)
    } else if key == "settings.check_updates"@ {
        Some("检查更新"@)
    } else if key == "settings.auto_check_updates"@ {
        Some("启动时自动检查更新"@)
    } else if key == "update.checking"@ {
        Some("正在检查更新…"@)
    } else if key == "update.up_to_date"@ {
        Some("已是最新版本"@)
    } else if key == "update.available"@ {
        Some("发现新版本"@)
    } else if key == "update.open_releases"@ {
        Some("查看发布页"@)
    } else if key == "update.check_failed"@ {
        Some("检查更新失败"@)
    } else if key == "update.check_failed_hint"@ {
        Some("无法连接 GitHub。请确认系统代理可用，或在启动前设置 https_proxy 环境变量，然后重试。"@)
    } else if key == "close"@ {
        Some("关闭"@)
    } else if key == "fake"@ {
        Some("模拟设备"@)
    } else if key == "connect_android"@ {
        Some("连接 Android 设备"@)
    } else if key == "ip_host"@ {
        Some("IP / 主机"@)
    } else if key == "port"@ {
        Some("端口"@)
    } else if key == "connect"@ {
        Some("连接"@)
    } else if key == "disconnect"@ {
        Some("断开"@)
    } else {
        None
    }
}

/// Looks `key` up in block 1 of the chinese catalog.
fn lookup_zh_block_1(key: &str) -> (found: Option<&'static str>)
    ensures
        match found {
            Some(t) => zh_block_1(key@) == Some(t@),
            None => zh_block_1(key@) is None,
        },
{
    if str_equal(key, "start") {
        return Some("开始");
    }
    if str_equal(key, "device_manager") {
        return Some("设备管理");
    }
    if str_equal(key, "diagnostics") {
        return Some("ADB 信息");
    }
    if str_equal(key, "appearance") {
        return Some("外观");
    }
    if str_equal(key, "theme") {
        return Some("主题");
    }
    if str_equal(key, "language") {
        return Some("语言");
    }
    if str_equal(key, "open") {
        return Some("打开");
    }
    if str_equal(key, "details") {
        return Some("详情");
    }
    if str_equal(key, "hide") {
        return Some("收起");
    }
    if str_equal(key, "adb_executable") {
        return Some("ADB 可执行文件");
    }
    if str_equal(key, "adb.fadb_adb_invalid") {
        return Some("环境变量 FADB_ADB 指向的文件不存在");
    }
    if str_equal(key, "adb_download") {
        return Some("官方下载");
    }
    if str_equal(key, "adb_download_link") {
        return Some("Android 开发者网站");
    }
    if str_equal(key, "version") {
        return Some("版本");
    }
    if str_equal(key, "detected_devices") {
        return Some("已检测到的设备");
    }
    if str_equal(key, "unknown") {
        return Some("未知");
    }
    if str_equal(key, "adb_not_available") {
        return Some("不可用；可能启用了模拟数据");
    }
    if str_equal(key, "adb_env_hint") {
        return Some("设置 FADB_ADB 可指定 adb 可执行文件路径；设置 FADB_FAKE=1 可启用确定性开发数据。");
    }
    if str_equal(key, "coming_soon") {
        return Some("后续里程碑开发");
    }
    if str_equal(key, "explicit_selection") {
        return Some("为避免误操作，Fadb 不会自动选择设备。");
    }
    if str_equal(key, "loading") {
        return Some("正在读取设备信息…");
    }
    if str_equal(key, "light") {
        return Some("浅色");
    }
    if str_equal(key, "dark") {
        return Some("深色");
    }
    if str_equal(key, "settings") {
        return Some("设置");
    }
    if str_equal(key, "about") {
        return Some("关于");
    }
    if str_equal(key, "settings.check_updates") {
        return Some("检查更新");
    }
    if str_equal(key, "settings.auto_check_updates") {
        return Some("启动时自动检查更新");
    }
    if str_equal(key, "update.checking") {
        return Some("正在检查更新…");
    }
    if str_equal(key, "update.up_to_date") {
        return Some("已是最新版本");
    }
    if str_equal(key, "update.available") {
        return Some("发现新版本");
    }
    if str_equal(key, "update.open_releases") {
        return Some("查看发布页");
    }
    if str_equal(key, "update.check_failed") {
        return Some("检查更新失败");
    }
    if str_equal(key, "update.check_failed_hint") {
        return Some("无法连接 GitHub。请确认系统代理可用，或在启动前设置 https_proxy 环境变量，然后重试。");
    }
    if str_equal(key, "close") {
        return Some("关闭");
    }
    if str_equal(key, "fake") {
        return Some("模拟设备");
    }
    if str_equal(key, "connect_android") {
        return Some("连接 Android 设备");
    }
    if str_equal(key, "ip_host") {
        return Some("IP / 主机");
    }
    if str_equal(key, "port") {
        return Some("端口");
    }
    if str_equal(key, "connect") {
        return Some("连接");
    }
    if str_equal(key, "disconnect") {
        return Some("断开");
    }
    None
}

/// Chinese catalog, entries 81 to 120 of the catalog, first match wins.
pub open spec fn zh_block_2(key: Seq<char>) -> Option<Seq<char>> {
    if key == "connecting"@ {
        Some("正在连接"@)
    } else if key == "recent_network_devices"@ {
        Some("最近连接的网络设备"@)
    } else if key == "forget"@ {
        Some("移除"@)
    } else if key == "connected_devices"@ {
        Some("已连接设备"@)
    } else if key == "model"@ {
        Some("型号"@)
    } else if key == "serial"@ {
        Some("序列号"@)
    } else if key == "state"@ {
        Some("状态"@)
    } else if key == "product"@ {
        Some("产品"@)
    } else if key == "action"@ {
        Some("操作"@)
    } else if key == "select"@ {
        Some("选择"@)
    } else if key == "process_snapshot_hint"@ {
        Some("每 3 秒更新一次进程快照"@)
    } else if key == "applications_hint"@ {
        Some("列出设备上已安装的应用；默认仅显示第三方应用。"@)
    } else if key == "app_filter_third"@ {
        Some("第三方"@)
    } else if key == "app_filter_system"@ {
        Some("系统应用"@)
    } else if key == "app_filter_all"@ {
        Some("全部"@)
    } else if key == "apps_search_hint"@ {
        Some("搜索包名…"@)
    } else if key == "no_applications"@ {
        Some("没有读取到应用"@)
    } else if key == "app_badge_system"@ {
        Some("系统"@)
    } else if key == "app_badge_frozen"@ {
        Some("已冻结"@)
    } else if key == "app_details_hint"@ {
        Some("在左侧选择一个应用查看详情"@)
    } else if key == "app_info"@ {
        Some("应用信息"@)
    } else if key == "app_version"@ {
        Some("版本"@)
    } else if key == "app_target_sdk"@ {
        Some("目标 SDK"@)
    } else if key == "app_min_sdk"@ {
        Some("最低 SDK"@)
    } else if key == "app_installer"@ {
        Some("安装来源"@)
    } else if key == "app_first_install"@ {
        Some("首次安装"@)
    } else if key == "app_last_update"@ {
        Some("最近更新"@)
    } else if key == "app_apk_path"@ {
        Some("APK 路径"@)
    } else if key == "app_permissions"@ {
        Some("声明的权限"@)
    } else if key == "app_permissions_none"@ {
        Some("未声明权限"@)
    } else if key == "app_details_unavailable"@ {
        Some("未能读取应用信息"@)
    } else if key == "app_open"@ {
        Some("打开"@)
    } else if key == "app_force_stop"@ {
        Some("强制停止"@)
    } else if key == "app_clear_data"@ {
        Some("清除数据"@)
    } else if key == "app_freeze"@ {
        Some("冻结"@)
    } else if key == "app_unfreeze"@ {
        Some("解冻"@)
    } else if key == "app_uninstall"@ {
        Some("卸载"@)
    } else if key == "app_action_running"@ {
        Some("正在执行"@)
    } else if key == "app_confirm_clear_title"@ {
        Some("确认清除应用数据？"@)
    } else if key == "app_confirm_clear_body"@ {
        Some("将清除该应用的所有数据（设置、账号、数据库），不可恢复。"@)
    } else {
        None
    }
}

/// Looks `key` up in block 2 of the chinese catalog.
fn lookup_zh_block_2(key: &str) -> (found: Option<&'static str>)
    ensures
        match found {
            Some(t) => zh_block_2(key@) == Some(t@),
            None => zh_block_2(key@) is None,
        },
{
    if str_equal(key, "connecting") {
        return Some("正在连接");
    }
    if str_equal(key, "recent_network_devices") {
        return Some("最近连接的网络设备");
    }
    if str_equal(key, "forget") {
        return Some("移除");
    }
    if str_equal(key, "connected_devices") {
        return Some("已连接设备");
    }
    if str_equal(key, "model") {
        return Some("型号");
    }
    if str_equal(key, "serial") {
        return Some("序列号");
    }
    if str_equal(key, "state") {
        return Some("状态");
    }
    if str_equal(key, "product") {
        return Some("产品");
    }
    if str_equal(key, "action") {
        return Some("操作");
    }
    if str_equal(key, "select") {
        return Some("选择");
    }
    if str_equal(key, "process_snapshot_hint") {
        return Some("每 3 秒更新一次进程快照");
    }
    if str_equal(key, "applications_hint") {
        return Some("列出设备上已安装的应用；默认仅显示第三方应用。");
    }
    if str_equal(key, "app_filter_third") {
        return Some("第三方");
    }
    if str_equal(key, "app_filter_system") {
        return Some("系统应用");
    }
    if str_equal(key, "app_filter_all") {
        return Some("全部");
    }
    if str_equal(key, "apps_search_hint") {
        return Some("搜索包名…");
    }
    if str_equal(key, "no_applications") {
        return Some("没有读取到应用");
    }
    if str_equal(key, "app_badge_system") {
        return Some("系统");
    }
    if str_equal(key, "app_badge_frozen") {
        return Some("已冻结");
    }
    if str_equal(key, "app_details_hint") {
        return Some("在左侧选择一个应用查看详情");
    }
    if str_equal(key, "app_info") {
        return Some("应用信息");
    }
    if str_equal(key, "app_version") {
        return Some("版本");
    }
    if str_equal(key, "app_target_sdk") {
        return Some("目标 SDK");
    }
    if str_equal(key, "app_min_sdk") {
        return Some("最低 SDK");
    }
    if str_equal(key, "app_installer") {
        return Some("安装来源");
    }
    if str_equal(key, "app_first_install") {
        return Some("首次安装");
    }
    if str_equal(key, "app_last_update") {
        return Some("最近更新");
    }
    if str_equal(key, "app_apk_path") {
        return Some("APK 路径");
    }
    if str_equal(key, "app_permissions") {
        return Some("声明的权限");
    }
    if str_equal(key, "app_permissions_none") {
        return Some("未声明权限");
    }
    if str_equal(key, "app_details_unavailable") {
        return Some("未能读取应用信息");
    }
    if str_equal(key, "app_open") {
        return Some("打开");
    }
    if str_equal(key, "app_force_stop") {
        return Some("强制停止");
    }
    if str_equal(key, "app_clear_data") {
        return Some("清除数据");
    }
    if str_equal(key, "app_freeze") {
        return Some("冻结");
    }
    if str_equal(key, "app_unfreeze") {
        return Some("解冻");
    }
    if str_equal(key, "app_uninstall") {
        return Some("卸载");
    }
    if str_equal(key, "app_action_running") {
        return Some("正在执行");
    }
    if str_equal(key, "app_confirm_clear_title") {
        return Some("确认清除应用数据？");
    }
    if str_equal(key, "app_confirm_clear_body") {
        return Some("将清除该应用的所有数据（设置、账号、数据库），不可恢复。");
    }
    None
}

/// Chinese catalog, entries 121 to 160 of the catalog, first match wins.
pub open spec fn zh_block_3(key: Seq<char>) -> Option<Seq<char>> {
    if key == "app_confirm_uninstall_title"@ {
        Some("确认卸载？"@)
    } else if key == "app_confirm_uninstall_body"@ {
        Some("将从当前用户卸载该应用。系统应用仅移除当前用户的安装。"@)
    } else if key == "confirm"@ {
        Some("确认"@)
    } else if key == "cancel"@ {
        Some("取消"@)
    } else if key == "performance_live_hint"@ {
        Some("持续采样，保留最近 60 秒"@)
    } else if key == "performance_waiting"@ {
        Some("正在采集性能数据…"@)
    } else if key == "no_processes"@ {
        Some("没有读取到进程"@)
    } else if key == "processes_search_hint"@ {
        Some("搜索进程名、PID 或用户"@)
    } else if key == "processes_no_match"@ {
        Some("没有匹配的进程"@)
    } else if key == "processes_sort_hint"@ {
        Some("点击按该列降序排序，再点一次恢复默认"@)
    } else if key == "pid"@ {
        Some("PID"@)
    } else if key == "process_name"@ {
        Some("进程"@)
    } else if key == "user"@ {
        Some("用户"@)
    } else if key == "cpu"@ {
        Some("CPU"@)
    } else if key == "memory"@ {
        Some("内存"@)
    } else if key == "resident"@ {
        Some("常驻内存"@)
    } else if key == "load_1m"@ {
        Some("1 分钟负载"@)
    } else if key == "battery"@ {
        Some("电量"@)
    } else if key == "performance_history"@ {
        Some("性能趋势"@)
    } else if key == "assistant_ready"@ {
        Some("已连接"@)
    } else if key == "assistant_not_configured"@ {
        Some("未配置"@)
    } else if key == "assistant_configure"@ {
        Some("配置…"@)
    } else if key == "assistant_privacy_note"@ {
        Some("未配置提供商或未授权前，不会有任何数据离开本机。流式输出属于后续里程碑。"@)
    } else if key == "assistant_empty_hint"@ {
        Some("可以询问当前设备、ADB 报错或某行日志；未经授权，助手无法访问设备数据。"@)
    } else if key == "assistant_you"@ {
        Some("你"@)
    } else if key == "assistant_label"@ {
        Some("助手"@)
    } else if key == "assistant_waiting"@ {
        Some("等待助手回复…"@)
    } else if key == "assistant_input_hint"@ {
        Some("向助手提问…"@)
    } else if key == "assistant_send"@ {
        Some("发送"@)
    } else if key == "assistant_send_hint"@ {
        Some("Enter 发送 · Shift+Enter 换行"@)
    } else if key == "ai_settings"@ {
        Some("AI 设置"@)
    } else if key == "ai_endpoint"@ {
        Some("接口地址（Base URL）"@)
    } else if key == "ai_model_name"@ {
        Some("模型名称"@)
    } else if key == "ai_api_key"@ {
        Some("API 密钥"@)
    } else if key == "ai_timeout_seconds"@ {
        Some("超时（秒）"@)
    } else if key == "ai_save"@ {
        Some("保存并连接"@)
    } else if key == "ai_disable"@ {
        Some("停用 AI"@)
    } else if key == "ai_settings_hint"@ {
        Some("兼容 OpenAI 接口即可：OpenAI、DeepSeek、智谱 GLM、Ollama 等。密钥仅保存在本机。"@)
    } else if key == "win_minimize"@ {
        Some("最小化"@)
    } else if key == "win_maximize"@ {
        Some("最大化"@)
    } else {
        None
    }
}

/// Looks `key` up in block 3 of the chinese catalog.
fn lookup_zh_block_3(key: &str) -> (found: Option<&'static str>)
    ensures
        match found {
            Some(t) => zh_block_3(key@) == Some(t@),
            None => zh_block_3(key@) is None,
        },
{
    if str_equal(key, "app_confirm_uninstall_title") {
        return Some("确认卸载？");
    }
    if str_equal(key, "app_confirm_uninstall_body") {
        return Some("将从当前用户卸载该应用。系统应用仅移除当前用户的安装。");
    }
    if str_equal(key, "confirm") {
        return Some("确认");
    }
    if str_equal(key, "cancel") {
        return Some("取消");
    }
    if str_equal(key, "performance_live_hint") {
        return Some("持续采样，保留最近 60 秒");
    }
    if str_equal(key, "performance_waiting") {
        return Some("正在采集性能数据…");
    }
    if str_equal(key, "no_processes") {
        return Some("没有读取到进程");
    }
    if str_equal(key, "processes_search_hint") {
        return Some("搜索进程名、PID 或用户");
    }
    if str_equal(key, "processes_no_match") {
        return Some("没有匹配的进程");
    }
    if str_equal(key, "processes_sort_hint") {
        return Some("点击按该列降序排序，再点一次恢复默认");
    }
    if str_equal(key, "pid") {
        return Some("PID");
    }
    if str_equal(key, "process_name") {
        return Some("进程");
    }
    if str_equal(key, "user") {
        return Some("用户");
    }
    if str_equal(key, "cpu") {
        return Some("CPU");
    }
    if str_equal(key, "memory") {
        return Some("内存");
    }
    if str_equal(key, "resident") {
        return Some("常驻内存");
    }
    if str_equal(key, "load_1m") {
        return Some("1 分钟负载");
    }
    if str_equal(key, "battery") {
        return Some("电量");
    }
    if str_equal(key, "performance_history") {
        return Some("性能趋势");
    }
    if str_equal(key, "assistant_ready") {
        return Some("已连接");
    }
    if str_equal(key, "assistant_not_configured") {
        return Some("未配置");
    }
    if str_equal(key, "assistant_configure") {
        return Some("配置…");
    }
    if str_equal(key, "assistant_privacy_note") {
        return Some("未配置提供商或未授权前，不会有任何数据离开本机。流式输出属于后续里程碑。");
    }
    if str_equal(key, "assistant_empty_hint") {
        return Some("可以询问当前设备、ADB 报错或某行日志；未经授权，助手无法访问设备数据。");
    }
    if str_equal(key, "assistant_you") {
        return Some("你");
    }
    if str_equal(key, "assistant_label") {
        return Some("助手");
    }
    if str_equal(key, "assistant_waiting") {
        return Some("等待助手回复…");
    }
    if str_equal(key, "assistant_input_hint") {
        return Some("向助手提问…");
    }
    if str_equal(key, "assistant_send") {
        return Some("发送");
    }
    if str_equal(key, "assistant_send_hint") {
        return Some("Enter 发送 · Shift+Enter 换行");
    }
    if str_equal(key, "ai_settings") {
        return Some("AI 设置");
    }
    if str_equal(key, "ai_endpoint") {
        return Some("接口地址（Base URL）");
    }
    if str_equal(key, "ai_model_name") {
        return Some("模型名称");
    }
    if str_equal(key, "ai_api_key") {
        return Some("API 密钥");
    }
    if str_equal(key, "ai_timeout_seconds") {
        return Some("超时（秒）");
    }
    if str_equal(key, "ai_save") {
        return Some("保存并连接");
    }
    if str_equal(key, "ai_disable") {
        return Some("停用 AI");
    }
    if str_equal(key, "ai_settings_hint") {
        return Some("兼容 OpenAI 接口即可：OpenAI、DeepSeek、智谱 GLM、Ollama 等。密钥仅保存在本机。");
    }
    if str_equal(key, "win_minimize") {
        return Some("最小化");
    }
    if str_equal(key, "win_maximize") {
        return Some("最大化");
    }
    None
}

/// Chinese catalog, entries 161 to 200 of the catalog, first match wins.
pub open spec fn zh_block_4(key: Seq<char>) -> Option<Seq<char>> {
    if key == "win_restore"@ {
        Some("还原"@)
    } else if key == "win_close"@ {
        Some("关闭"@)
    } else if key == "files_select_device"@ {
        Some("请先选择在线设备，再浏览设备文件。"@)
    } else if key == "files_back"@ {
        Some("后退"@)
    } else if key == "files_up"@ {
        Some("上一级"@)
    } else if key == "files_go"@ {
        Some("前往"@)
    } else if key == "files_new_folder"@ {
        Some("新建文件夹"@)
    } else if key == "files_upload"@ {
        Some("上传"@)
    } else if key == "files_upload_dialog"@ {
        Some("选择要上传的文件"@)
    } else if key == "files_upload_invalid_name"@ {
        Some("上传失败：本地文件名包含无效字符。"@)
    } else if key == "files_download"@ {
        Some("下载"@)
    } else if key == "files_download_dialog"@ {
        Some("选择保存位置"@)
    } else if key == "files_cancel_transfer"@ {
        Some("取消传输"@)
    } else if key == "files_loading"@ {
        Some("正在加载目录…"@)
    } else if key == "files_name"@ {
        Some("名称"@)
    } else if key == "files_type"@ {
        Some("类型"@)
    } else if key == "files_size"@ {
        Some("大小"@)
    } else if key == "files_modified"@ {
        Some("修改时间"@)
    } else if key == "files_kind_file"@ {
        Some("文件"@)
    } else if key == "files_kind_directory"@ {
        Some("文件夹"@)
    } else if key == "files_kind_symlink"@ {
        Some("符号链接"@)
    } else if key == "files_kind_other"@ {
        Some("其他"@)
    } else if key == "files_rename"@ {
        Some("重命名"@)
    } else if key == "files_delete"@ {
        Some("删除"@)
    } else if key == "files_transferring"@ {
        Some("正在传输…"@)
    } else if key == "files_overwrite_remote_title"@ {
        Some("覆盖远端文件？"@)
    } else if key == "files_overwrite_local_title"@ {
        Some("覆盖本地文件？"@)
    } else if key == "files_overwrite_body"@ {
        Some("「{}」已存在，是否替换？"@)
    } else if key == "files_replace"@ {
        Some("替换"@)
    } else if key == "files_delete_title"@ {
        Some("删除条目？"@)
    } else if key == "files_delete_body"@ {
        Some("将删除选中的条目，此操作不可恢复。"@)
    } else if key == "files_invalid_name"@ {
        Some("远端名称或所选条目无效。"@)
    } else if key == "files_enter"@ {
        Some("进入"@)
    } else if key == "files_copy_path"@ {
        Some("复制路径"@)
    } else if key == "screenshot_capture"@ {
        Some("截图"@)
    } else if key == "screenshot_retake"@ {
        Some("重新截图"@)
    } else if key == "screenshot_save_png"@ {
        Some("保存 PNG"@)
    } else if key == "screenshot_fit"@ {
        Some("适应窗口"@)
    } else if key == "screenshot_actual"@ {
        Some("100%"@)
    } else if key == "screenshot_copy_image"@ {
        Some("复制图片"@)
    } else {
        None
    }
}

/// Looks `key` up in block 4 of the chinese catalog.
fn lookup_zh_block_4(key: &str) -> (found: Option<&'static str>)
    ensures
        match found {
            Some(t) => zh_block_4(key@) == Some(t@),
            None => zh_block_4(key@) is None,
        },
{
    if str_equal(key, "win_restore") {
        return Some("还原");
    }
    if str_equal(key, "win_close") {
        return Some("关闭");
    }
    if str_equal(key, "files_select_device") {
        return Some("请先选择在线设备，再浏览设备文件。");
    }
    if str_equal(key, "files_back") {
        return Some("后退");
    }
    if str_equal(key, "files_up") {
        return Some("上一级");
    }
    if str_equal(key, "files_go") {
        return Some("前往");
    }
    if str_equal(key, "files_new_folder") {
        return Some("新建文件夹");
    }
    if str_equal(key, "files_upload") {
        return Some("上传");
    }
    if str_equal(key, "files_upload_dialog") {
        return Some("选择要上传的文件");
    }
    if str_equal(key, "files_upload_invalid_name") {
        return Some("上传失败：本地文件名包含无效字符。");
    }
    if str_equal(key, "files_download") {
        return Some("下载");
    }
    if str_equal(key, "files_download_dialog") {
        return Some("选择保存位置");
    }
    if str_equal(key, "files_cancel_transfer") {
        return Some("取消传输");
    }
    if str_equal(key, "files_loading") {
        return Some("正在加载目录…");
    }
    if str_equal(key, "files_name") {
        return Some("名称");
    }
    if str_equal(key, "files_type") {
        return Some("类型");
    }
    if str_equal(key, "files_size") {
        return Some("大小");
    }
    if str_equal(key, "files_modified") {
        return Some("修改时间");
    }
    if str_equal(key, "files_kind_file") {
        return Some("文件");
    }
    if str_equal(key, "files_kind_directory") {
        return Some("文件夹");
    }
    if str_equal(key, "files_kind_symlink") {
        return Some("符号链接");
    }
    if str_equal(key, "files_kind_other") {
        return Some("其他");
    }
    if str_equal(key, "files_rename") {
        return Some("重命名");
    }
    if str_equal(key, "files_delete") {
        return Some("删除");
    }
    if str_equal(key, "files_transferring") {
        return Some("正在传输…");
    }
    if str_equal(key, "files_overwrite_remote_title") {
        return Some("覆盖远端文件？");
    }
    if str_equal(key, "files_overwrite_local_title") {
        return Some("覆盖本地文件？");
    }
    if str_equal(key, "files_overwrite_body") {
        return Some("「{}」已存在，是否替换？");
    }
    if str_equal(key, "files_replace") {
        return Some("替换");
    }
    if str_equal(key, "files_delete_title") {
        return Some("删除条目？");
    }
    if str_equal(key, "files_delete_body") {
        return Some("将删除选中的条目，此操作不可恢复。");
    }
    if str_equal(key, "files_invalid_name") {
        return Some("远端名称或所选条目无效。");
    }
    if str_equal(key, "files_enter") {
        return Some("进入");
    }
    if str_equal(key, "files_copy_path") {
        return Some("复制路径");
    }
    if str_equal(key, "screenshot_capture") {
        return Some("截图");
    }
    if str_equal(key, "screenshot_retake") {
        return Some("重新截图");
    }
    if str_equal(key, "screenshot_save_png") {
        return Some("保存 PNG");
    }
    if str_equal(key, "screenshot_fit") {
        return Some("适应窗口");
    }
    if str_equal(key, "screenshot_actual") {
        return Some("100%");
    }
    if str_equal(key, "screenshot_copy_image") {
        return Some("复制图片");
    }
    None
}

/// Chinese catalog, entries 201 to 240 of the catalog, first match wins.
pub open spec fn zh_block_5(key: Seq<char>) -> Option<Seq<char>> {
    if key == "screenshot_capturing"@ {
        Some("正在截图并解码 PNG…"@)
    } else if key == "screenshot_hint"@ {
        Some("选择在线设备后，点击「截图」抓取当前屏幕。"@)
    } else if key == "screenshot_saved"@ {
        Some("已保存到 "@)
    } else if key == "screenshot_pixels"@ {
        Some("像素"@)
    } else if key == "shell_title"@ {
        Some("交互式终端"@)
    } else if key == "shell_status_disconnected"@ {
        Some("未连接"@)
    } else if key == "shell_status_connecting"@ {
        Some("连接中"@)
    } else if key == "shell_status_connected"@ {
        Some("已连接"@)
    } else if key == "shell_status_closing"@ {
        Some("断开中"@)
    } else if key == "shell_status_exited"@ {
        Some("已退出"@)
    } else if key == "shell_status_failed"@ {
        Some("连接失败"@)
    } else if key == "shell_hint"@ {
        Some("专家接口 · Android PTY · 远端 stderr 通常与 stdout 合并 · 连接时按面板大小设定终端尺寸"@)
    } else if key == "shell_disconnect"@ {
        Some("断开"@)
    } else if key == "shell_clear_display"@ {
        Some("清屏"@)
    } else if key == "shell_copy_visible"@ {
        Some("复制可见内容"@)
    } else if key == "shell_copy_selection"@ {
        Some("复制所选"@)
    } else if key == "shell_paste"@ {
        Some("粘贴"@)
    } else if key == "shell_focus_terminal"@ {
        Some("聚焦终端"@)
    } else if key == "shell_select_online"@ {
        Some("请先选择在线设备再连接。"@)
    } else if key == "shell_empty_hint"@ {
        Some("点击「连接」并聚焦此终端后即可输入命令。"@)
    } else if key == "quick_commands_tag"@ {
        Some("快捷命令"@)
    } else if key == "quick_commands_more"@ {
        Some("更多快捷命令"@)
    } else if key == "quick_commands_manage"@ {
        Some("管理"@)
    } else if key == "quick_commands_manage_title"@ {
        Some("快捷命令管理"@)
    } else if key == "quick_commands_manage_hint"@ {
        Some("记录常用命令,点击面板上的按钮即可发送;支持导入导出 JSON 文件。"@)
    } else if key == "quick_commands_add"@ {
        Some("新增"@)
    } else if key == "quick_commands_delete"@ {
        Some("删除"@)
    } else if key == "quick_commands_label"@ {
        Some("名称"@)
    } else if key == "quick_commands_command"@ {
        Some("命令"@)
    } else if key == "quick_commands_run"@ {
        Some("执行"@)
    } else if key == "quick_commands_run_tip"@ {
        Some("勾选后点击按钮会自动追加回车执行;取消勾选则仅输入命令,不执行。"@)
    } else if key == "quick_commands_no_run_tip"@ {
        Some("仅输入,不自动执行"@)
    } else if key == "quick_commands_up"@ {
        Some("上移"@)
    } else if key == "quick_commands_down"@ {
        Some("下移"@)
    } else if key == "quick_commands_import"@ {
        Some("导入…"@)
    } else if key == "quick_commands_export"@ {
        Some("导出…"@)
    } else if key == "quick_commands_imported_prefix"@ {
        Some("已导入"@)
    } else if key == "quick_commands_imported_suffix"@ {
        Some("条快捷命令。"@)
    } else if key == "quick_commands_exported_prefix"@ {
        Some("已导出:"@)
    } else if key == "quick_commands_failed"@ {
        Some("操作失败"@)
    } else {
        None
    }
}

/// Looks `key` up in block 5 of the chinese catalog.
fn lookup_zh_block_5(key: &str) -> (found: Option<&'static str>)
    ensures
        match found {
            Some(t) => zh_block_5(key@) == Some(t@),
            None => zh_block_5(key@) is None,
        },
{
    if str_equal(key, "screenshot_capturing") {
        return Some("正在截图并解码 PNG…");
    }
    if str_equal(key, "screenshot_hint") {
        return Some("选择在线设备后，点击「截图」抓取当前屏幕。");
    }
    if str_equal(key, "screenshot_saved") {
        return Some("已保存到 ");
    }
    if str_equal(key, "screenshot_pixels") {
        return Some("像素");
    }
    if str_equal(key, "shell_title") {
        return Some("交互式终端");
    }
    if str_equal(key, "shell_status_disconnected") {
        return Some("未连接");
    }
    if str_equal(key, "shell_status_connecting") {
        return Some("连接中");
    }
    if str_equal(key, "shell_status_connected") {
        return Some("已连接");
    }
    if str_equal(key, "shell_status_closing") {
        return Some("断开中");
    }
    if str_equal(key, "shell_status_exited") {
        return Some("已退出");
    }
    if str_equal(key, "shell_status_failed") {
        return Some("连接失败");
    }
    if str_equal(key, "shell_hint") {
        return Some("专家接口 · Android PTY · 远端 stderr 通常与 stdout 合并 · 连接时按面板大小设定终端尺寸");
    }
    if str_equal(key, "shell_disconnect") {
        return Some("断开");
    }
    if str_equal(key, "shell_clear_display") {
        return Some("清屏");
    }
    if str_equal(key, "shell_copy_visible") {
        return Some("复制可见内容");
    }
    if str_equal(key, "shell_copy_selection") {
        return Some("复制所选");
    }
    if str_equal(key, "shell_paste") {
        return Some("粘贴");
    }
    if str_equal(key, "shell_focus_terminal") {
        return Some("聚焦终端");
    }
    if str_equal(key, "shell_select_online") {
        return Some("请先选择在线设备再连接。");
    }
    if str_equal(key, "shell_empty_hint") {
        return Some("点击「连接」并聚焦此终端后即可输入命令。");
    }
    if str_equal(key, "quick_commands_tag") {
        return Some("快捷命令");
    }
    if str_equal(key, "quick_commands_more") {
        return Some("更多快捷命令");
    }
    if str_equal(key, "quick_commands_manage") {
        return Some("管理");
    }
    if str_equal(key, "quick_commands_manage_title") {
        return Some("快捷命令管理");
    }
    if str_equal(key, "quick_commands_manage_hint") {
        return Some("记录常用命令,点击面板上的按钮即可发送;支持导入导出 JSON 文件。");
    }
    if str_equal(key, "quick_commands_add") {
        return Some("新增");
    }
    if str_equal(key, "quick_commands_delete") {
        return Some("删除");
    }
    if str_equal(key, "quick_commands_label") {
        return Some("名称");
    }
    if str_equal(key, "quick_commands_command") {
        return Some("命令");
    }
    if str_equal(key, "quick_commands_run") {
        return Some("执行");
    }
    if str_equal(key, "quick_commands_run_tip") {
        return Some("勾选后点击按钮会自动追加回车执行;取消勾选则仅输入命令,不执行。");
    }
    if str_equal(key, "quick_commands_no_run_tip") {
        return Some("仅输入,不自动执行");
    }
    if str_equal(key, "quick_commands_up") {
        return Some("上移");
    }
    if str_equal(key, "quick_commands_down") {
        return Some("下移");
    }
    if str_equal(key, "quick_commands_import") {
        return Some("导入…");
    }
    if str_equal(key, "quick_commands_export") {
        return Some("导出…");
    }
    if str_equal(key, "quick_commands_imported_prefix") {
        return Some("已导入");
    }
    if str_equal(key, "quick_commands_imported_suffix") {
        return Some("条快捷命令。");
    }
    if str_equal(key, "quick_commands_exported_prefix") {
        return Some("已导出:");
    }
    if str_equal(key, "quick_commands_failed") {
        return Some("操作失败");
    }
    None
}

/// Chinese catalog, entries 241 to 280 of the catalog, first match wins.
pub open spec fn zh_block_6(key: Seq<char>) -> Option<Seq<char>> {
    if key == "quick_commands_empty"@ {
        Some("暂无快捷命令,点击下方「新增」添加。"@)
    } else if key == "logcat_start"@ {
        Some("开始捕获"@)
    } else if key == "logcat_stop"@ {
        Some("停止"@)
    } else if key == "logcat_pause"@ {
        Some("暂停"@)
    } else if key == "logcat_resume"@ {
        Some("继续"@)
    } else if key == "logcat_clear"@ {
        Some("清空"@)
    } else if key == "logcat_save"@ {
        Some("保存日志"@)
    } else if key == "logcat_autoscroll"@ {
        Some("自动滚动"@)
    } else if key == "logcat_level"@ {
        Some("级别"@)
    } else if key == "logcat_level_all"@ {
        Some("全部"@)
    } else if key == "logcat_streaming"@ {
        Some("正在捕获日志"@)
    } else if key == "logcat_starting"@ {
        Some("正在连接 logcat…"@)
    } else if key == "logcat_idle"@ {
        Some("未在捕获"@)
    } else if key == "logcat_paused"@ {
        Some("已暂停（新日志被丢弃）"@)
    } else if key == "logcat_search_hint"@ {
        Some("搜索 TAG 或内容…"@)
    } else if key == "logcat_line_count"@ {
        Some("显示 {visible} / {total} 行"@)
    } else if key == "layout_loading"@ {
        Some("正在捕获视图层次…（忙碌界面可能需要数秒）"@)
    } else if key == "layout_empty"@ {
        Some("暂无快照，点击「刷新」捕获当前界面。"@)
    } else if key == "layout_export"@ {
        Some("导出 XML"@)
    } else if key == "layout_search_hint"@ {
        Some("搜索 class / id / 文本…"@)
    } else if key == "layout_node_count"@ {
        Some("节点数"@)
    } else if key == "layout_attributes"@ {
        Some("属性"@)
    } else if key == "layout_no_selection"@ {
        Some("在左侧选择一个节点查看属性。"@)
    } else if key == "layout_copy_hint"@ {
        Some("复制该子树的文本摘要"@)
    } else if key == "attr_class"@ {
        Some("类名"@)
    } else if key == "attr_resource_id"@ {
        Some("资源 ID"@)
    } else if key == "attr_text"@ {
        Some("文本"@)
    } else if key == "attr_content_desc"@ {
        Some("内容描述"@)
    } else if key == "attr_package"@ {
        Some("包名"@)
    } else if key == "attr_bounds"@ {
        Some("边界 (x, y, 宽, 高)"@)
    } else if key == "attr_children"@ {
        Some("子节点"@)
    } else if key == "attr_clickable"@ {
        Some("可点击"@)
    } else if key == "attr_scrollable"@ {
        Some("可滚动"@)
    } else if key == "attr_enabled"@ {
        Some("可用"@)
    } else if key == "attr_selected"@ {
        Some("选中"@)
    } else if key == "attr_focused"@ {
        Some("聚焦"@)
    } else if key == "attr_yes"@ {
        Some("是"@)
    } else if key == "attr_no"@ {
        Some("否"@)
    } else if key == "attr_disabled"@ {
        Some("已禁用"@)
    } else if key == "copy"@ {
        Some("复制"@)
    } else {
        None
    }
}

/// Looks `key` up in block 6 of the chinese catalog.
fn lookup_zh_block_6(key: &str) -> (found: Option<&'static str>)
    ensures
        match found {
            Some(t) => zh_block_6(key@) == Some(t@),
            None => zh_block_6(key@) is None,
        },
{
    if str_equal(key, "quick_commands_empty") {
        return Some("暂无快捷命令,点击下方「新增」添加。");
    }
    if str_equal(key, "logcat_start") {
        return Some("开始捕获");
    }
    if str_equal(key, "logcat_stop") {
        return Some("停止");
    }
    if str_equal(key, "logcat_pause") {
        return Some("暂停");
    }
    if str_equal(key, "logcat_resume") {
        return Some("继续");
    }
    if str_equal(key, "logcat_clear") {
        return Some("清空");
    }
    if str_equal(key, "logcat_save") {
        return Some("保存日志");
    }
    if str_equal(key, "logcat_autoscroll") {
        return Some("自动滚动");
    }
    if str_equal(key, "logcat_level") {
        return Some("级别");
    }
    if str_equal(key, "logcat_level_all") {
        return Some("全部");
    }
    if str_equal(key, "logcat_streaming") {
        return Some("正在捕获日志");
    }
    if str_equal(key, "logcat_starting") {
        return Some("正在连接 logcat…");
    }
    if str_equal(key, "logcat_idle") {
        return Some("未在捕获");
    }
    if str_equal(key, "logcat_paused") {
        return Some("已暂停（新日志被丢弃）");
    }
    if str_equal(key, "logcat_search_hint") {
        return Some("搜索 TAG 或内容…");
    }
    if str_equal(key, "logcat_line_count") {
        return Some("显示 {visible} / {total} 行");
    }
    if str_equal(key, "layout_loading") {
        return Some("正在捕获视图层次…（忙碌界面可能需要数秒）");
    }
    if str_equal(key, "layout_empty") {
        return Some("暂无快照，点击「刷新」捕获当前界面。");
    }
    if str_equal(key, "layout_export") {
        return Some("导出 XML");
    }
    if str_equal(key, "layout_search_hint") {
        return Some("搜索 class / id / 文本…");
    }
    if str_equal(key, "layout_node_count") {
        return Some("节点数");
    }
    if str_equal(key, "layout_attributes") {
        return Some("属性");
    }
    if str_equal(key, "layout_no_selection") {
        return Some("在左侧选择一个节点查看属性。");
    }
    if str_equal(key, "layout_copy_hint") {
        return Some("复制该子树的文本摘要");
    }
    if str_equal(key, "attr_class") {
        return Some("类名");
    }
    if str_equal(key, "attr_resource_id") {
        return Some("资源 ID");
    }
    if str_equal(key, "attr_text") {
        return Some("文本");
    }
    if str_equal(key, "attr_content_desc") {
        return Some("内容描述");
    }
    if str_equal(key, "attr_package") {
        return Some("包名");
    }
    if str_equal(key, "attr_bounds") {
        return Some("边界 (x, y, 宽, 高)");
    }
    if str_equal(key, "attr_children") {
        return Some("子节点");
    }
    if str_equal(key, "attr_clickable") {
        return Some("可点击");
    }
    if str_equal(key, "attr_scrollable") {
        return Some("可滚动");
    }
    if str_equal(key, "attr_enabled") {
        return Some("可用");
    }
    if str_equal(key, "attr_selected") {
        return Some("选中");
    }
    if str_equal(key, "attr_focused") {
        return Some("聚焦");
    }
    if str_equal(key, "attr_yes") {
        return Some("是");
    }
    if str_equal(key, "attr_no") {
        return Some("否");
    }
    if str_equal(key, "attr_disabled") {
        return Some("已禁用");
    }
    if str_equal(key, "copy") {
        return Some("复制");
    }
    None
}

/// Chinese catalog, entries 281 to 320 of the catalog, first match wins.
pub open spec fn zh_block_7(key: Seq<char>) -> Option<Seq<char>> {
    if key == "webview_refresh_sockets"@ {
        Some("刷新调试服务"@)
    } else if key == "webview_sockets"@ {
        Some("调试服务（DevTools socket）"@)
    } else if key == "webview_pages"@ {
        Some("可调试页面"@)
    } else if key == "webview_none_found"@ {
        Some("未发现 WebView 调试服务。应用需开启 setWebContentsDebuggingEnabled(true)，且存在运行中的 WebView/浏览器进程。"@)
    } else if key == "webview_select_socket"@ {
        Some("选择一个调试服务查看页面。"@)
    } else if key == "webview_no_pages"@ {
        Some("该调试服务没有可调试页面。"@)
    } else if key == "webview_col_title"@ {
        Some("标题"@)
    } else if key == "webview_col_url"@ {
        Some("URL"@)
    } else if key == "webview_col_type"@ {
        Some("类型"@)
    } else if key == "webview_col_action"@ {
        Some("操作"@)
    } else if key == "webview_open_page"@ {
        Some("打开页面"@)
    } else if key == "webview_open_devtools"@ {
        Some("打开调试器"@)
    } else if key == "webview_copy_url"@ {
        Some("复制调试地址"@)
    } else if key == "webview_debug_hint"@ {
        Some("调试器通过本地端口转发（DevTools 协议）在浏览器中打开；转发会在刷新服务列表时自动清理。"@)
    } else if key == "applications_install"@ {
        Some("安装 APK…"@)
    } else if key == "applications_install_running"@ {
        Some("正在安装 APK…"@)
    } else if key == "applications_install_ok"@ {
        Some("APK 安装成功"@)
    } else if key == "applications_drop_install"@ {
        Some("释放以安装 APK"@)
    } else if key == "applications.install_no_reason"@ {
        Some("APK 安装失败"@)
    } else if key == "applications.drop_needs_device"@ {
        Some("请先选择设备，再安装 APK"@)
    } else if key == "wireless"@ {
        Some("无线调试"@)
    } else if key == "wireless_hint"@ {
        Some("支持配对、切换无线模式与发现局域网调试服务。"@)
    } else if key == "wireless_pair"@ {
        Some("配对地址"@)
    } else if key == "wireless_pair_go"@ {
        Some("配对"@)
    } else if key == "wireless_pairing"@ {
        Some("正在配对…"@)
    } else if key == "wireless_pair_ok"@ {
        Some("配对成功，请用设备 IP 连接。"@)
    } else if key == "wireless_code"@ {
        Some("配对码"@)
    } else if key == "wireless_tcpip"@ {
        Some("无线模式"@)
    } else if key == "wireless_tcpip_running"@ {
        Some("正在切换到无线模式…"@)
    } else if key == "wireless_tcpip_ok"@ {
        Some("已切换到无线模式，请用设备 IP 连接。"@)
    } else if key == "wireless_tcpip_hint"@ {
        Some("将当前设备切换到网络调试（端口 5555），随后用设备 IP 连接。"@)
    } else if key == "wireless_tcpip_need_device"@ {
        Some("请先选择一个设备"@)
    } else if key == "wireless_mdns"@ {
        Some("发现设备"@)
    } else if key == "wireless_mdns_hint"@ {
        Some("列出局域网内正在广播的调试服务。"@)
    } else if key == "wireless_connect"@ {
        Some("连接"@)
    } else if key == "wireless_none"@ {
        Some("未发现调试服务。"@)
    } else if key == "mirror"@ {
        Some("投屏"@)
    } else if key == "mirror_hint"@ {
        Some("将所选设备的实时画面镜像到本窗口（仅视频，不注入触控）。"@)
    } else if key == "mirror_start"@ {
        Some("开始投屏"@)
    } else if key == "mirror_stop"@ {
        Some("停止投屏"@)
    } else {
        None
    }
}

/// Looks `key` up in block 7 of the chinese catalog.
fn lookup_zh_block_7(key: &str) -> (found: Option<&'static str>)
    ensures
        match found {
            Some(t) => zh_block_7(key@) == Some(t@),
            None => zh_block_7(key@) is None,
        },
{
    if str_equal(key, "webview_refresh_sockets") {
        return Some("刷新调试服务");
    }
    if str_equal(key, "webview_sockets") {
        return Some("调试服务（DevTools socket）");
    }
    if str_equal(key, "webview_pages") {
        return Some("可调试页面");
    }
    if str_equal(key, "webview_none_found") {
        return Some("未发现 WebView 调试服务。应用需开启 setWebContentsDebuggingEnabled(true)，且存在运行中的 WebView/浏览器进程。");
    }
    if str_equal(key, "webview_select_socket") {
        return Some("选择一个调试服务查看页面。");
    }
    if str_equal(key, "webview_no_pages") {
        return Some("该调试服务没有可调试页面。");
    }
    if str_equal(key, "webview_col_title") {
        return Some("标题");
    }
    if str_equal(key, "webview_col_url") {
        return Some("URL");
    }
    if str_equal(key, "webview_col_type") {
        return Some("类型");
    }
    if str_equal(key, "webview_col_action") {
        return Some("操作");
    }
    if str_equal(key, "webview_open_page") {
        return Some("打开页面");
    }
    if str_equal(key, "webview_open_devtools") {
        return Some("打开调试器");
    }
    if str_equal(key, "webview_copy_url") {
        return Some("复制调试地址");
    }
    if str_equal(key, "webview_debug_hint") {
        return Some("调试器通过本地端口转发（DevTools 协议）在浏览器中打开；转发会在刷新服务列表时自动清理。");
    }
    if str_equal(key, "applications_install") {
        return Some("安装 APK…");
    }
    if str_equal(key, "applications_install_running") {
        return Some("正在安装 APK…");
    }
    if str_equal(key, "applications_install_ok") {
        return Some("APK 安装成功");
    }
    if str_equal(key, "applications_drop_install") {
        return Some("释放以安装 APK");
    }
    if str_equal(key, "applications.install_no_reason") {
        return Some("APK 安装失败");
    }
    if str_equal(key, "applications.drop_needs_device") {
        return Some("请先选择设备，再安装 APK");
    }
    if str_equal(key, "wireless") {
        return Some("无线调试");
    }
    if str_equal(key, "wireless_hint") {
        return Some("支持配对、切换无线模式与发现局域网调试服务。");
    }
    if str_equal(key, "wireless_pair") {
        return Some("配对地址");
    }
    if str_equal(key, "wireless_pair_go") {
        return Some("配对");
    }
    if str_equal(key, "wireless_pairing") {
        return Some("正在配对…");
    }
    if str_equal(key, "wireless_pair_ok") {
        return Some("配对成功，请用设备 IP 连接。");
    }
    if str_equal(key, "wireless_code") {
        return Some("配对码");
    }
    if str_equal(key, "wireless_tcpip") {
        return Some("无线模式");
    }
    if str_equal(key, "wireless_tcpip_running") {
        return Some("正在切换到无线模式…");
    }
    if str_equal(key, "wireless_tcpip_ok") {
        return Some("已切换到无线模式，请用设备 IP 连接。");
    }
    if str_equal(key, "wireless_tcpip_hint") {
        return Some("将当前设备切换到网络调试（端口 5555），随后用设备 IP 连接。");
    }
    if str_equal(key, "wireless_tcpip_need_device") {
        return Some("请先选择一个设备");
    }
    if str_equal(key, "wireless_mdns") {
        return Some("发现设备");
    }
    if str_equal(key, "wireless_mdns_hint") {
        return Some("列出局域网内正在广播的调试服务。");
    }
    if str_equal(key, "wireless_connect") {
        return Some("连接");
    }
    if str_equal(key, "wireless_none") {
        return Some("未发现调试服务。");
    }
    if str_equal(key, "mirror") {
        return Some("投屏");
    }
    if str_equal(key, "mirror_hint") {
        return Some("将所选设备的实时画面镜像到本窗口（仅视频，不注入触控）。");
    }
    if str_equal(key, "mirror_start") {
        return Some("开始投屏");
    }
    if str_equal(key, "mirror_stop") {
        return Some("停止投屏");
    }
    None
}

/// Chinese catalog, entries 321 to 360 of the catalog, first match wins.
pub open spec fn zh_block_8(key: Seq<char>) -> Option<Seq<char>> {
    if key == "mirror_starting"@ {
        Some("正在启动设备端服务…"@)
    } else if key == "mirror_running"@ {
        Some("投屏中"@)
    } else if key == "mirror_native"@ {
        Some("原生分辨率"@)
    } else if key == "mirror_need_device"@ {
        Some("请先选择一个在线设备"@)
    } else if key == "mirror_waiting"@ {
        Some("等待设备视频流…"@)
    } else if key == "mirror_remote"@ {
        Some("遥控器"@)
    } else if key == "mirror_key_power"@ {
        Some("电源"@)
    } else if key == "mirror_key_mute"@ {
        Some("静音"@)
    } else if key == "mirror_key_play"@ {
        Some("播放"@)
    } else if key == "mirror_key_vol_up"@ {
        Some("音量+"@)
    } else if key == "mirror_key_vol_down"@ {
        Some("音量-"@)
    } else if key == "mirror_key_menu"@ {
        Some("菜单"@)
    } else if key == "mirror_key_home"@ {
        Some("主页"@)
    } else if key == "mirror_key_back"@ {
        Some("返回"@)
    } else if key == "mirror_record"@ {
        Some("录像"@)
    } else if key == "mirror_record_stop"@ {
        Some("停止录像"@)
    } else if key == "mirror_recording"@ {
        Some("录像中"@)
    } else if key == "mirror_record_saved"@ {
        Some("录像已保存"@)
    } else if key == "mirror_need_mirror"@ {
        Some("请先开始投屏"@)
    } else if key == "mirror_record_frames"@ {
        Some("帧"@)
    } else if key == "mirror.jar_write_failed"@ {
        Some("写入投屏服务临时文件失败"@)
    } else if key == "mirror.push_failed"@ {
        Some("推送投屏服务到设备失败"@)
    } else if key == "mirror.listen_failed"@ {
        Some("本机监听端口失败"@)
    } else if key == "mirror.forward_failed"@ {
        Some("建立 ADB 端口转发失败"@)
    } else if key == "mirror.shell_failed"@ {
        Some("启动设备端进程失败"@)
    } else if key == "mirror.server_start_timeout"@ {
        Some("设备端服务启动超时"@)
    } else if key == "mirror.stream_failed"@ {
        Some("视频流异常"@)
    } else if key == "mirror.codec_mismatch"@ {
        Some("视频流编码不是 H.264"@)
    } else if key == "mirror.record_empty"@ {
        Some("录像未捕获到画面"@)
    } else if key == "mirror.record_not_running"@ {
        Some("当前没有投屏会话"@)
    } else if key == "mirror.record_write_failed"@ {
        Some("写入录像文件失败"@)
    } else if key == "adb.cancelled"@ {
        Some("操作已取消"@)
    } else if key == "adb.command_failed"@ {
        Some("ADB 命令执行失败"@)
    } else if key == "adb.devices.invalid_line"@ {
        Some("ADB 设备列表格式异常"@)
    } else if key == "adb.not_found"@ {
        Some("未找到 adb 可执行文件"@)
    } else if key == "adb.output_limit"@ {
        Some("输出超过大小限制"@)
    } else if key == "adb.read_failed"@ {
        Some("读取 adb 输出失败"@)
    } else if key == "adb.spawn_failed"@ {
        Some("无法启动 adb 进程"@)
    } else if key == "adb.stderr_missing"@ {
        Some("无法获取 adb 标准错误流"@)
    } else if key == "adb.stdout_missing"@ {
        Some("无法获取 adb 标准输出流"@)
    } else {
        None
    }
}

/// Looks `key` up in block 8 of the chinese catalog.
fn lookup_zh_block_8(key: &str) -> (found: Option<&'static str>)
    ensures
        match found {
            Some(t) => zh_block_8(key@) == Some(t@),
            None => zh_block_8(key@) is None,
        },
{
    if str_equal(key, "mirror_starting") {
        return Some("正在启动设备端服务…");
    }
    if str_equal(key, "mirror_running") {
        return Some("投屏中");
    }
    if str_equal(key, "mirror_native") {
        return Some("原生分辨率");
    }
    if str_equal(key, "mirror_need_device") {
        return Some("请先选择一个在线设备");
    }
    if str_equal(key, "mirror_waiting") {
        return Some("等待设备视频流…");
    }
    if str_equal(key, "mirror_remote") {
        return Some("遥控器");
    }
    if str_equal(key, "mirror_key_power") {
        return Some("电源");
    }
    if str_equal(key, "mirror_key_mute") {
        return Some("静音");
    }
    if str_equal(key, "mirror_key_play") {
        return Some("播放");
    }
    if str_equal(key, "mirror_key_vol_up") {
        return Some("音量+");
    }
    if str_equal(key, "mirror_key_vol_down") {
        return Some("音量-");
    }
    if str_equal(key, "mirror_key_menu") {
        return Some("菜单");
    }
    if str_equal(key, "mirror_key_home") {
        return Some("主页");
    }
    if str_equal(key, "mirror_key_back") {
        return Some("返回");
    }
    if str_equal(key, "mirror_record") {
        return Some("录像");
    }
    if str_equal(key, "mirror_record_stop") {
        return Some("停止录像");
    }
    if str_equal(key, "mirror_recording") {
        return Some("录像中");
    }
    if str_equal(key, "mirror_record_saved") {
        return Some("录像已保存");
    }
    if str_equal(key, "mirror_need_mirror") {
        return Some("请先开始投屏");
    }
    if str_equal(key, "mirror_record_frames") {
        return Some("帧");
    }
    if str_equal(key, "mirror.jar_write_failed") {
        return Some("写入投屏服务临时文件失败");
    }
    if str_equal(key, "mirror.push_failed") {
        return Some("推送投屏服务到设备失败");
    }
    if str_equal(key, "mirror.listen_failed") {
        return Some("本机监听端口失败");
    }
    if str_equal(key, "mirror.forward_failed") {
        return Some("建立 ADB 端口转发失败");
    }
    if str_equal(key, "mirror.shell_failed") {
        return Some("启动设备端进程失败");
    }
    if str_equal(key, "mirror.server_start_timeout") {
        return Some("设备端服务启动超时");
    }
    if str_equal(key, "mirror.stream_failed") {
        return Some("视频流异常");
    }
    if str_equal(key, "mirror.codec_mismatch") {
        return Some("视频流编码不是 H.264");
    }
    if str_equal(key, "mirror.record_empty") {
        return Some("录像未捕获到画面");
    }
    if str_equal(key, "mirror.record_not_running") {
        return Some("当前没有投屏会话");
    }
    if str_equal(key, "mirror.record_write_failed") {
        return Some("写入录像文件失败");
    }
    if str_equal(key, "adb.cancelled") {
        return Some("操作已取消");
    }
    if str_equal(key, "adb.command_failed") {
        return Some("ADB 命令执行失败");
    }
    if str_equal(key, "adb.devices.invalid_line") {
        return Some("ADB 设备列表格式异常");
    }
    if str_equal(key, "adb.not_found") {
        return Some("未找到 adb 可执行文件");
    }
    if str_equal(key, "adb.output_limit") {
        return Some("输出超过大小限制");
    }
    if str_equal(key, "adb.read_failed") {
        return Some("读取 adb 输出失败");
    }
    if str_equal(key, "adb.spawn_failed") {
        return Some("无法启动 adb 进程");
    }
    if str_equal(key, "adb.stderr_missing") {
        return Some("无法获取 adb 标准错误流");
    }
    if str_equal(key, "adb.stdout_missing") {
        return Some("无法获取 adb 标准输出流");
    }
    None
}

/// Chinese catalog, entries 361 to 400 of the catalog, first match wins.
pub open spec fn zh_block_9(key: Seq<char>) -> Option<Seq<char>> {
    if key == "adb.timed_out"@ {
        Some("ADB 命令执行超时"@)
    } else if key == "adb.wait_failed"@ {
        Some("等待 adb 进程退出失败"@)
    } else if key == "device.generation_changed"@ {
        Some("设备已重新连接，请刷新"@)
    } else if key == "device.not_found"@ {
        Some("设备不存在或已断开"@)
    } else if key == "device.unavailable"@ {
        Some("设备当前不可用"@)
    } else if key == "file.create_directory_failed"@ {
        Some("创建文件夹失败"@)
    } else if key == "file.delete_failed"@ {
        Some("删除失败"@)
    } else if key == "file.delete_invalid"@ {
        Some("删除目标无效"@)
    } else if key == "file.delete_not_regular_file"@ {
        Some("只能删除常规文件或文件夹"@)
    } else if key == "file.download_failed"@ {
        Some("下载失败"@)
    } else if key == "file.list_failed"@ {
        Some("读取目录失败"@)
    } else if key == "file.list_invalid_record"@ {
        Some("目录列表包含异常条目"@)
    } else if key == "file.local_exists"@ {
        Some("本地文件已存在"@)
    } else if key == "file.local_source_missing"@ {
        Some("本地文件不存在"@)
    } else if key == "file.local_source_not_file"@ {
        Some("本地路径不是常规文件"@)
    } else if key == "file.local_symlink_refused"@ {
        Some("出于安全考虑已拒绝符号链接"@)
    } else if key == "file.path.component_invalid"@ {
        Some("路径包含非法字符"@)
    } else if key == "file.path.escapes_root"@ {
        Some("路径越出了允许的根目录"@)
    } else if key == "file.path.invalid"@ {
        Some("路径无效"@)
    } else if key == "file.remote_exists"@ {
        Some("远端文件已存在"@)
    } else if key == "file.rename_failed"@ {
        Some("重命名失败"@)
    } else if key == "file.rename_invalid"@ {
        Some("重命名目标无效"@)
    } else if key == "file.upload_failed"@ {
        Some("上传失败"@)
    } else if key == "screenshot.capture_failed"@ {
        Some("截图失败"@)
    } else if key == "screenshot.dimensions.invalid"@ {
        Some("截图尺寸无效"@)
    } else if key == "screenshot.invalid_png"@ {
        Some("截图不是有效的 PNG"@)
    } else if key == "screenshot.save_failed"@ {
        Some("保存截图失败"@)
    } else if key == "shell.already_closed"@ {
        Some("终端会话已关闭"@)
    } else if key == "shell.close_timed_out"@ {
        Some("关闭终端会话超时"@)
    } else if key == "shell.input.empty"@ {
        Some("输入为空"@)
    } else if key == "shell.input.too_large"@ {
        Some("输入超过大小限制"@)
    } else if key == "shell.kill_failed"@ {
        Some("终止终端进程失败"@)
    } else if key == "shell.pipe_missing"@ {
        Some("终端管道缺失"@)
    } else if key == "shell.read_failed"@ {
        Some("读取终端输出失败"@)
    } else if key == "shell.size.invalid"@ {
        Some("终端尺寸无效"@)
    } else if key == "shell.spawn_failed"@ {
        Some("无法启动终端会话"@)
    } else if key == "shell.wait_failed"@ {
        Some("等待终端进程退出失败"@)
    } else if key == "shell.write_failed"@ {
        Some("向终端写入失败"@)
    } else if key == "layout.dump_failed"@ {
        Some("捕获视图层次失败"@)
    } else if key == "layout.parse_failed"@ {
        Some("解析视图层次失败"@)
    } else {
        None
    }
}

/// Looks `key` up in block 9 of the chinese catalog.
fn lookup_zh_block_9(key: &str) -> (found: Option<&'static str>)
    ensures
        match found {
            Some(t) => zh_block_9(key@) == Some(t@),
            None => zh_block_9(key@) is None,
        },
{
    if str_equal(key, "adb.timed_out") {
        return Some("ADB 命令执行超时");
    }
    if str_equal(key, "adb.wait_failed") {
        return Some("等待 adb 进程退出失败");
    }
    if str_equal(key, "device.generation_changed") {
        return Some("设备已重新连接，请刷新");
    }
    if str_equal(key, "device.not_found") {
        return Some("设备不存在或已断开");
    }
    if str_equal(key, "device.unavailable") {
        return Some("设备当前不可用");
    }
    if str_equal(key, "file.create_directory_failed") {
        return Some("创建文件夹失败");
    }
    if str_equal(key, "file.delete_failed") {
        return Some("删除失败");
    }
    if str_equal(key, "file.delete_invalid") {
        return Some("删除目标无效");
    }
    if str_equal(key, "file.delete_not_regular_file") {
        return Some("只能删除常规文件或文件夹");
    }
    if str_equal(key, "file.download_failed") {
        return Some("下载失败");
    }
    if str_equal(key, "file.list_failed") {
        return Some("读取目录失败");
    }
    if str_equal(key, "file.list_invalid_record") {
        return Some("目录列表包含异常条目");
    }
    if str_equal(key, "file.local_exists") {
        return Some("本地文件已存在");
    }
    if str_equal(key, "file.local_source_missing") {
        return Some("本地文件不存在");
    }
    if str_equal(key, "file.local_source_not_file") {
        return Some("本地路径不是常规文件");
    }
    if str_equal(key, "file.local_symlink_refused") {
        return Some("出于安全考虑已拒绝符号链接");
    }
    if str_equal(key, "file.path.component_invalid") {
        return Some("路径包含非法字符");
    }
    if str_equal(key, "file.path.escapes_root") {
        return Some("路径越出了允许的根目录");
    }
    if str_equal(key, "file.path.invalid") {
        return Some("路径无效");
    }
    if str_equal(key, "file.remote_exists") {
        return Some("远端文件已存在");
    }
    if str_equal(key, "file.rename_failed") {
        return Some("重命名失败");
    }
    if str_equal(key, "file.rename_invalid") {
        return Some("重命名目标无效");
    }
    if str_equal(key, "file.upload_failed") {
        return Some("上传失败");
    }
    if str_equal(key, "screenshot.capture_failed") {
        return Some("截图失败");
    }
    if str_equal(key, "screenshot.dimensions.invalid") {
        return Some("截图尺寸无效");
    }
    if str_equal(key, "screenshot.invalid_png") {
        return Some("截图不是有效的 PNG");
    }
    if str_equal(key, "screenshot.save_failed") {
        return Some("保存截图失败");
    }
    if str_equal(key, "shell.already_closed") {
        return Some("终端会话已关闭");
    }
    if str_equal(key, "shell.close_timed_out") {
        return Some("关闭终端会话超时");
    }
    if str_equal(key, "shell.input.empty") {
        return Some("输入为空");
    }
    if str_equal(key, "shell.input.too_large") {
        return Some("输入超过大小限制");
    }
    if str_equal(key, "shell.kill_failed") {
        return Some("终止终端进程失败");
    }
    if str_equal(key, "shell.pipe_missing") {
        return Some("终端管道缺失");
    }
    if str_equal(key, "shell.read_failed") {
        return Some("读取终端输出失败");
    }
    if str_equal(key, "shell.size.invalid") {
        return Some("终端尺寸无效");
    }
    if str_equal(key, "shell.spawn_failed") {
        return Some("无法启动终端会话");
    }
    if str_equal(key, "shell.wait_failed") {
        return Some("等待终端进程退出失败");
    }
    if str_equal(key, "shell.write_failed") {
        return Some("向终端写入失败");
    }
    if str_equal(key, "layout.dump_failed") {
        return Some("捕获视图层次失败");
    }
    if str_equal(key, "layout.parse_failed") {
        return Some("解析视图层次失败");
    }
    None
}

/// Chinese catalog, entries 401 to 411 of the catalog, first match wins.
pub open spec fn zh_block_10(key: Seq<char>) -> Option<Seq<char>> {
    if key == "logcat.spawn_failed"@ {
        Some("无法启动日志会话"@)
    } else if key == "logcat.wait_failed"@ {
        Some("等待日志进程退出失败"@)
    } else if key == "webview.forward_failed"@ {
        Some("建立端口转发失败"@)
    } else if key == "webview.pages_unreachable"@ {
        Some("无法访问 DevTools 调试接口"@)
    } else if key == "applications.install_failed"@ {
        Some("APK 安装失败"@)
    } else if key == "adb.pair_failed"@ {
        Some("无线配对失败"@)
    } else if key == "adb.tcpip_failed"@ {
        Some("切换无线模式失败"@)
    } else if key == "adb.mdns_failed"@ {
        Some("发现调试服务失败"@)
    } else if key == "wireless.pair_invalid"@ {
        Some("配对信息无效：请检查地址、端口与配对码（6–8 位数字）"@)
    } else if key == "device.target_stale"@ {
        Some("设备已不在线，请刷新后重试"@)
    } else if key == "assistant"@ {
        Some("AI 助手"@)
    } else {
        None
    }
}

/// Looks `key` up in block 10 of the chinese catalog.
fn lookup_zh_block_10(key: &str) -> (found: Option<&'static str>)
    ensures
        match found {
            Some(t) => zh_block_10(key@) == Some(t@),
            None => zh_block_10(key@) is None,
        },
{
    if str_equal(key, "logcat.spawn_failed") {
        return Some("无法启动日志会话");
    }
    if str_equal(key, "logcat.wait_failed") {
        return Some("等待日志进程退出失败");
    }
    if str_equal(key, "webview.forward_failed") {
        return Some("建立端口转发失败");
    }
    if str_equal(key, "webview.pages_unreachable") {
        return Some("无法访问 DevTools 调试接口");
    }
    if str_equal(key, "applications.install_failed") {
        return Some("APK 安装失败");
    }
    if str_equal(key, "adb.pair_failed") {
        return Some("无线配对失败");
    }
    if str_equal(key, "adb.tcpip_failed") {
        return Some("切换无线模式失败");
    }
    if str_equal(key, "adb.mdns_failed") {
        return Some("发现调试服务失败");
    }
    if str_equal(key, "wireless.pair_invalid") {
        return Some("配对信息无效：请检查地址、端口与配对码（6–8 位数字）");
    }
    if str_equal(key, "device.target_stale") {
        return Some("设备已不在线，请刷新后重试");
    }
    if str_equal(key, "assistant") {
        return Some("AI 助手");
    }
    None
}

/// The chinese catalog: the translation of `key`, if the catalog has one.
pub open spec fn zh_catalog(key: Seq<char>) -> Option<Seq<char>> {
    if zh_block_0(key) is Some {
        zh_block_0(key)
    } else if zh_block_1(key) is Some {
        zh_block_1(key)
    } else if zh_block_2(key) is Some {
        zh_block_2(key)
    } else if zh_block_3(key) is Some {
        zh_block_3(key)
    } else if zh_block_4(key) is Some {
        zh_block_4(key)
    } else if zh_block_5(key) is Some {
        zh_block_5(key)
    } else if zh_block_6(key) is Some {
        zh_block_6(key)
    } else if zh_block_7(key) is Some {
        zh_block_7(key)
    } else if zh_block_8(key) is Some {
        zh_block_8(key)
    } else if zh_block_9(key) is Some {
        zh_block_9(key)
    } else if zh_block_10(key) is Some {
        zh_block_10(key)
    } else {
        None
    }
}

/// Looks `key` up in the chinese catalog.
pub fn lookup_zh(key: &str) -> (found: Option<&'static str>)
    ensures
        match found {
            Some(t) => zh_catalog(key@) == Some(t@),
            None => zh_catalog(key@) is None,
        },
{
    let found = lookup_zh_block_0(key);
    if found.is_some() {
        return found;
    }
    let found = lookup_zh_block_1(key);
    if found.is_some() {
        return found;
    }
    let found = lookup_zh_block_2(key);
    if found.is_some() {
        return found;
    }
    let found = lookup_zh_block_3(key);
    if found.is_some() {
        return found;
    }
    let found = lookup_zh_block_4(key);
    if found.is_some() {
        return found;
    }
    let found = lookup_zh_block_5(key);
    if found.is_some() {
        return found;
    }
    let found = lookup_zh_block_6(key);
    if found.is_some() {
        return found;
    }
    let found = lookup_zh_block_7(key);
    if found.is_some() {
        return found;
    }
    let found = lookup_zh_block_8(key);
    if found.is_some() {
        return found;
    }
    let found = lookup_zh_block_9(key);
    if found.is_some() {
        return found;
    }
    let found = lookup_zh_block_10(key);
    if found.is_some() {
        return found;
    }
    None
}

/// Every translation in block 0 of the chinese catalog is non-empty.
proof fn lemma_zh_block_0_nonempty(key: Seq<char>)
    ensures
        zh_block_0(key) matches Some(t) ==> t.len() > 0,
{
    if zh_block_0(key) is Some {
        reveal_strlit("概览");
        reveal_strlit("收起导航");
        reveal_strlit("展开导航");
        reveal_strlit("暂无");
        reveal_strlit("点击复制");
        reveal_strlit("已复制");
        reveal_strlit("概览数据尚未加载，点击顶部「刷新」获取。");
        reveal_strlit("请在设备上允许 USB 调试授权，然后刷新。");
        reveal_strlit("设备处于离线状态，请重新连接或重启 ADB。");
        reveal_strlit("设备处于不受支持的 ADB 状态。");
        reveal_strlit("核");
        reveal_strlit("名称");
        reveal_strlit("品牌");
        reveal_strlit("型号");
        reveal_strlit("序列号");
        reveal_strlit("Android 版本");
        reveal_strlit("内核版本");
        reveal_strlit("处理器");
        reveal_strlit("内存");
        reveal_strlit("存储");
        reveal_strlit("电量");
        reveal_strlit("物理分辨率");
        reveal_strlit("分辨率");
        reveal_strlit("字体缩放");
        reveal_strlit("Wi-Fi");
        reveal_strlit("IP 地址");
        reveal_strlit("MAC 地址");
        reveal_strlit("文件");
        reveal_strlit("应用");
        reveal_strlit("进程");
        reveal_strlit("性能");
        reveal_strlit("终端");
        reveal_strlit("布局");
        reveal_strlit("截图");
        reveal_strlit("日志");
        reveal_strlit("网页");
        reveal_strlit("选择设备");
        reveal_strlit("未连接设备");
        reveal_strlit("刷新");
        reveal_strlit("停止");
    }
}

/// Every translation in block 1 of the chinese catalog is non-empty.
proof fn lemma_zh_block_1_nonempty(key: Seq<char>)
    ensures
        zh_block_1(key) matches Some(t) ==> t.len() > 0,
{
    if zh_block_1(key) is Some {
        reveal_strlit("开始");
        reveal_strlit("设备管理");
        reveal_strlit("ADB 信息");
        reveal_strlit("外观");
        reveal_strlit("主题");
        reveal_strlit("语言");
        reveal_strlit("打开");
        reveal_strlit("详情");
        reveal_strlit("收起");
        reveal_strlit("ADB 可执行文件");
        reveal_strlit("环境变量 FADB_ADB 指向的文件不存在");
        reveal_strlit("官方下载");
        reveal_strlit("Android 开发者网站");
        reveal_strlit("版本");
        reveal_strlit("已检测到的设备");
        reveal_strlit("未知");
        reveal_strlit("不可用；可能启用了模拟数据");
        reveal_strlit("设置 FADB_ADB 可指定 adb 可执行文件路径；设置 FADB_FAKE=1 可启用确定性开发数据。");
        reveal_strlit("后续里程碑开发");
        reveal_strlit("为避免误操作，Fadb 不会自动选择设备。");
        reveal_strlit("正在读取设备信息…");
        reveal_strlit("浅色");
        reveal_strlit("深色");
        reveal_strlit("设置");
        reveal_strlit("关于");
        reveal_strlit("检查更新");
        reveal_strlit("启动时自动检查更新");
        reveal_strlit("正在检查更新…");
        reveal_strlit("已是最新版本");
        reveal_strlit("发现新版本");
        reveal_strlit("查看发布页");
        reveal_strlit("检查更新失败");
        reveal_strlit("无法连接 GitHub。请确认系统代理可用，或在启动前设置 https_proxy 环境变量，然后重试。");
        reveal_strlit("关闭");
        reveal_strlit("模拟设备");
        reveal_strlit("连接 Android 设备");
        reveal_strlit("IP / 主机");
        reveal_strlit("端口");
        reveal_strlit("连接");
        reveal_strlit("断开");
    }
}

/// Every translation in block 2 of the chinese catalog is non-empty.
proof fn lemma_zh_block_2_nonempty(key: Seq<char>)
    ensures
        zh_block_2(key) matches Some(t) ==> t.len() > 0,
{
    if zh_block_2(key) is Some {
        reveal_strlit("正在连接");
        reveal_strlit("最近连接的网络设备");
        reveal_strlit("移除");
        reveal_strlit("已连接设备");
        reveal_strlit("型号");
        reveal_strlit("序列号");
        reveal_strlit("状态");
        reveal_strlit("产品");
        reveal_strlit("操作");
        reveal_strlit("选择");
        reveal_strlit("每 3 秒更新一次进程快照");
        reveal_strlit("列出设备上已安装的应用；默认仅显示第三方应用。");
        reveal_strlit("第三方");
        reveal_strlit("系统应用");
        reveal_strlit("全部");
        reveal_strlit("搜索包名…");
        reveal_strlit("没有读取到应用");
        reveal_strlit("系统");
        reveal_strlit("已冻结");
        reveal_strlit("在左侧选择一个应用查看详情");
        reveal_strlit("应用信息");
        reveal_strlit("版本");
        reveal_strlit("目标 SDK");
        reveal_strlit("最低 SDK");
        reveal_strlit("安装来源");
        reveal_strlit("首次安装");
        reveal_strlit("最近更新");
        reveal_strlit("APK 路径");
        reveal_strlit("声明的权限");
        reveal_strlit("未声明权限");
        reveal_strlit("未能读取应用信息");
        reveal_strlit("打开");
        reveal_strlit("强制停止");
        reveal_strlit("清除数据");
        reveal_strlit("冻结");
        reveal_strlit("解冻");
        reveal_strlit("卸载");
        reveal_strlit("正在执行");
        reveal_strlit("确认清除应用数据？");
        reveal_strlit("将清除该应用的所有数据（设置、账号、数据库），不可恢复。");
    }
}

/// Every translation in block 3 of the chinese catalog is non-empty.
proof fn lemma_zh_block_3_nonempty(key: Seq<char>)
    ensures
        zh_block_3(key) matches Some(t) ==> t.len() > 0,
{
    if zh_block_3(key) is Some {
        reveal_strlit("确认卸载？");
        reveal_strlit("将从当前用户卸载该应用。系统应用仅移除当前用户的安装。");
        reveal_strlit("确认");
        reveal_strlit("取消");
        reveal_strlit("持续采样，保留最近 60 秒");
        reveal_strlit("正在采集性能数据…");
        reveal_strlit("没有读取到进程");
        reveal_strlit("搜索进程名、PID 或用户");
        reveal_strlit("没有匹配的进程");
        reveal_strlit("点击按该列降序排序，再点一次恢复默认");
        reveal_strlit("PID");
        reveal_strlit("进程");
        reveal_strlit("用户");
        reveal_strlit("CPU");
        reveal_strlit("内存");
        reveal_strlit("常驻内存");
        reveal_strlit("1 分钟负载");
        reveal_strlit("电量");
        reveal_strlit("性能趋势");
        reveal_strlit("已连接");
        reveal_strlit("未配置");
        reveal_strlit("配置…");
        reveal_strlit("未配置提供商或未授权前，不会有任何数据离开本机。流式输出属于后续里程碑。");
        reveal_strlit("可以询问当前设备、ADB 报错或某行日志；未经授权，助手无法访问设备数据。");
        reveal_strlit("你");
        reveal_strlit("助手");
        reveal_strlit("等待助手回复…");
        reveal_strlit("向助手提问…");
        reveal_strlit("发送");
        reveal_strlit("Enter 发送 · Shift+Enter 换行");
        reveal_strlit("AI 设置");
        reveal_strlit("接口地址（Base URL）");
        reveal_strlit("模型名称");
        reveal_strlit("API 密钥");
        reveal_strlit("超时（秒）");
        reveal_strlit("保存并连接");
        reveal_strlit("停用 AI");
        reveal_strlit("兼容 OpenAI 接口即可：OpenAI、DeepSeek、智谱 GLM、Ollama 等。密钥仅保存在本机。");
        reveal_strlit("最小化");
        reveal_strlit("最大化");
    }
}

/// Every translation in block 4 of the chinese catalog is non-empty.
proof fn lemma_zh_block_4_nonempty(key: Seq<char>)
    ensures
        zh_block_4(key) matches Some(t) ==> t.len() > 0,
{
    if zh_block_4(key) is Some {
        reveal_strlit("还原");
        reveal_strlit("关闭");
        reveal_strlit("请先选择在线设备，再浏览设备文件。");
        reveal_strlit("后退");
        reveal_strlit("上一级");
        reveal_strlit("前往");
        reveal_strlit("新建文件夹");
        reveal_strlit("上传");
        reveal_strlit("选择要上传的文件");
        reveal_strlit("上传失败：本地文件名包含无效字符。");
        reveal_strlit("下载");
        reveal_strlit("选择保存位置");
        reveal_strlit("取消传输");
        reveal_strlit("正在加载目录…");
        reveal_strlit("名称");
        reveal_strlit("类型");
        reveal_strlit("大小");
        reveal_strlit("修改时间");
        reveal_strlit("文件");
        reveal_strlit("文件夹");
        reveal_strlit("符号链接");
        reveal_strlit("其他");
        reveal_strlit("重命名");
        reveal_strlit("删除");
        reveal_strlit("正在传输…");
        reveal_strlit("覆盖远端文件？");
        reveal_strlit("覆盖本地文件？");
        reveal_strlit("「{}」已存在，是否替换？");
        reveal_strlit("替换");
        reveal_strlit("删除条目？");
        reveal_strlit("将删除选中的条目，此操作不可恢复。");
        reveal_strlit("远端名称或所选条目无效。");
        reveal_strlit("进入");
        reveal_strlit("复制路径");
        reveal_strlit("截图");
        reveal_strlit("重新截图");
        reveal_strlit("保存 PNG");
        reveal_strlit("适应窗口");
        reveal_strlit("100%");
        reveal_strlit("复制图片");
    }
}

/// Every translation in block 5 of the chinese catalog is non-empty.
proof fn lemma_zh_block_5_nonempty(key: Seq<char>)
    ensures
        zh_block_5(key) matches Some(t) ==> t.len() > 0,
{
    if zh_block_5(key) is Some {
        reveal_strlit("正在截图并解码 PNG…");
        reveal_strlit("选择在线设备后，点击「截图」抓取当前屏幕。");
        reveal_strlit("已保存到 ");
        reveal_strlit("像素");
        reveal_strlit("交互式终端");
        reveal_strlit("未连接");
        reveal_strlit("连接中");
        reveal_strlit("已连接");
        reveal_strlit("断开中");
        reveal_strlit("已退出");
        reveal_strlit("连接失败");
        reveal_strlit("专家接口 · Android PTY · 远端 stderr 通常与 stdout 合并 · 连接时按面板大小设定终端尺寸");
        reveal_strlit("断开");
        reveal_strlit("清屏");
        reveal_strlit("复制可见内容");
        reveal_strlit("复制所选");
        reveal_strlit("粘贴");
        reveal_strlit("聚焦终端");
        reveal_strlit("请先选择在线设备再连接。");
        reveal_strlit("点击「连接」并聚焦此终端后即可输入命令。");
        reveal_strlit("快捷命令");
        reveal_strlit("更多快捷命令");
        reveal_strlit("管理");
        reveal_strlit("快捷命令管理");
        reveal_strlit("记录常用命令,点击面板上的按钮即可发送;支持导入导出 JSON 文件。");
        reveal_strlit("新增");
        reveal_strlit("删除");
        reveal_strlit("名称");
        reveal_strlit("命令");
        reveal_strlit("执行");
        reveal_strlit("勾选后点击按钮会自动追加回车执行;取消勾选则仅输入命令,不执行。");
        reveal_strlit("仅输入,不自动执行");
        reveal_strlit("上移");
        reveal_strlit("下移");
        reveal_strlit("导入…");
        reveal_strlit("导出…");
        reveal_strlit("已导入");
        reveal_strlit("条快捷命令。");
        reveal_strlit("已导出:");
        reveal_strlit("操作失败");
    }
}

/// Every translation in block 6 of the chinese catalog is non-empty.
proof fn lemma_zh_block_6_nonempty(key: Seq<char>)
    ensures
        zh_block_6(key) matches Some(t) ==> t.len() > 0,
{
    if zh_block_6(key) is Some {
        reveal_strlit("暂无快捷命令,点击下方「新增」添加。");
        reveal_strlit("开始捕获");
        reveal_strlit("停止");
        reveal_strlit("暂停");
        reveal_strlit("继续");
        reveal_strlit("清空");
        reveal_strlit("保存日志");
        reveal_strlit("自动滚动");
        reveal_strlit("级别");
        reveal_strlit("全部");
        reveal_strlit("正在捕获日志");
        reveal_strlit("正在连接 logcat…");
        reveal_strlit("未在捕获");
        reveal_strlit("已暂停（新日志被丢弃）");
        reveal_strlit("搜索 TAG 或内容…");
        reveal_strlit("显示 {visible} / {total} 行");
        reveal_strlit("正在捕获视图层次…（忙碌界面可能需要数秒）");
        reveal_strlit("暂无快照，点击「刷新」捕获当前界面。");
        reveal_strlit("导出 XML");
        reveal_strlit("搜索 class / id / 文本…");
        reveal_strlit("节点数");
        reveal_strlit("属性");
        reveal_strlit("在左侧选择一个节点查看属性。");
        reveal_strlit("复制该子树的文本摘要");
        reveal_strlit("类名");
        reveal_strlit("资源 ID");
        reveal_strlit("文本");
        reveal_strlit("内容描述");
        reveal_strlit("包名");
        reveal_strlit("边界 (x, y, 宽, 高)");
        reveal_strlit("子节点");
        reveal_strlit("可点击");
        reveal_strlit("可滚动");
        reveal_strlit("可用");
        reveal_strlit("选中");
        reveal_strlit("聚焦");
        reveal_strlit("是");
        reveal_strlit("否");
        reveal_strlit("已禁用");
        reveal_strlit("复制");
    }
}

/// Every translation in block 7 of the chinese catalog is non-empty.
proof fn lemma_zh_block_7_nonempty(key: Seq<char>)
    ensures
        zh_block_7(key) matches Some(t) ==> t.len() > 0,
{
    if zh_block_7(key) is Some {
        reveal_strlit("刷新调试服务");
        reveal_strlit("调试服务（DevTools socket）");
        reveal_strlit("可调试页面");
        reveal_strlit("未发现 WebView 调试服务。应用需开启 setWebContentsDebuggingEnabled(true)，且存在运行中的 WebView/浏览器进程。");
        reveal_strlit("选择一个调试服务查看页面。");
        reveal_strlit("该调试服务没有可调试页面。");
        reveal_strlit("标题");
        reveal_strlit("URL");
        reveal_strlit("类型");
        reveal_strlit("操作");
        reveal_strlit("打开页面");
        reveal_strlit("打开调试器");
        reveal_strlit("复制调试地址");
        reveal_strlit("调试器通过本地端口转发（DevTools 协议）在浏览器中打开；转发会在刷新服务列表时自动清理。");
        reveal_strlit("安装 APK…");
        reveal_strlit("正在安装 APK…");
        reveal_strlit("APK 安装成功");
        reveal_strlit("释放以安装 APK");
        reveal_strlit("APK 安装失败");
        reveal_strlit("请先选择设备，再安装 APK");
        reveal_strlit("无线调试");
        reveal_strlit("支持配对、切换无线模式与发现局域网调试服务。");
        reveal_strlit("配对地址");
        reveal_strlit("配对");
        reveal_strlit("正在配对…");
        reveal_strlit("配对成功，请用设备 IP 连接。");
        reveal_strlit("配对码");
        reveal_strlit("无线模式");
        reveal_strlit("正在切换到无线模式…");
        reveal_strlit("已切换到无线模式，请用设备 IP 连接。");
        reveal_strlit("将当前设备切换到网络调试（端口 5555），随后用设备 IP 连接。");
        reveal_strlit("请先选择一个设备");
        reveal_strlit("发现设备");
        reveal_strlit("列出局域网内正在广播的调试服务。");
        reveal_strlit("连接");
        reveal_strlit("未发现调试服务。");
        reveal_strlit("投屏");
        reveal_strlit("将所选设备的实时画面镜像到本窗口（仅视频，不注入触控）。");
        reveal_strlit("开始投屏");
        reveal_strlit("停止投屏");
    }
}

/// Every translation in block 8 of the chinese catalog is non-empty.
proof fn lemma_zh_block_8_nonempty(key: Seq<char>)
    ensures
        zh_block_8(key) matches Some(t) ==> t.len() > 0,
{
    if zh_block_8(key) is Some {
        reveal_strlit("正在启动设备端服务…");
        reveal_strlit("投屏中");
        reveal_strlit("原生分辨率");
        reveal_strlit("请先选择一个在线设备");
        reveal_strlit("等待设备视频流…");
        reveal_strlit("遥控器");
        reveal_strlit("电源");
        reveal_strlit("静音");
        reveal_strlit("播放");
        reveal_strlit("音量+");
        reveal_strlit("音量-");
        reveal_strlit("菜单");
        reveal_strlit("主页");
        reveal_strlit("返回");
        reveal_strlit("录像");
        reveal_strlit("停止录像");
        reveal_strlit("录像中");
        reveal_strlit("录像已保存");
        reveal_strlit("请先开始投屏");
        reveal_strlit("帧");
        reveal_strlit("写入投屏服务临时文件失败");
        reveal_strlit("推送投屏服务到设备失败");
        reveal_strlit("本机监听端口失败");
        reveal_strlit("建立 ADB 端口转发失败");
        reveal_strlit("启动设备端进程失败");
        reveal_strlit("设备端服务启动超时");
        reveal_strlit("视频流异常");
        reveal_strlit("视频流编码不是 H.264");
        reveal_strlit("录像未捕获到画面");
        reveal_strlit("当前没有投屏会话");
        reveal_strlit("写入录像文件失败");
        reveal_strlit("操作已取消");
        reveal_strlit("ADB 命令执行失败");
        reveal_strlit("ADB 设备列表格式异常");
        reveal_strlit("未找到 adb 可执行文件");
        reveal_strlit("输出超过大小限制");
        reveal_strlit("读取 adb 输出失败");
        reveal_strlit("无法启动 adb 进程");
        reveal_strlit("无法获取 adb 标准错误流");
        reveal_strlit("无法获取 adb 标准输出流");
    }
}

/// Every translation in block 9 of the chinese catalog is non-empty.
proof fn lemma_zh_block_9_nonempty(key: Seq<char>)
    ensures
        zh_block_9(key) matches Some(t) ==> t.len() > 0,
{
    if zh_block_9(key) is Some {
        reveal_strlit("ADB 命令执行超时");
        reveal_strlit("等待 adb 进程退出失败");
        reveal_strlit("设备已重新连接，请刷新");
        reveal_strlit("设备不存在或已断开");
        reveal_strlit("设备当前不可用");
        reveal_strlit("创建文件夹失败");
        reveal_strlit("删除失败");
        reveal_strlit("删除目标无效");
        reveal_strlit("只能删除常规文件或文件夹");
        reveal_strlit("下载失败");
        reveal_strlit("读取目录失败");
        reveal_strlit("目录列表包含异常条目");
        reveal_strlit("本地文件已存在");
        reveal_strlit("本地文件不存在");
        reveal_strlit("本地路径不是常规文件");
        reveal_strlit("出于安全考虑已拒绝符号链接");
        reveal_strlit("路径包含非法字符");
        reveal_strlit("路径越出了允许的根目录");
        reveal_strlit("路径无效");
        reveal_strlit("远端文件已存在");
        reveal_strlit("重命名失败");
        reveal_strlit("重命名目标无效");
        reveal_strlit("上传失败");
        reveal_strlit("截图失败");
        reveal_strlit("截图尺寸无效");
        reveal_strlit("截图不是有效的 PNG");
        reveal_strlit("保存截图失败");
        reveal_strlit("终端会话已关闭");
        reveal_strlit("关闭终端会话超时");
        reveal_strlit("输入为空");
        reveal_strlit("输入超过大小限制");
        reveal_strlit("终止终端进程失败");
        reveal_strlit("终端管道缺失");
        reveal_strlit("读取终端输出失败");
        reveal_strlit("终端尺寸无效");
        reveal_strlit("无法启动终端会话");
        reveal_strlit("等待终端进程退出失败");
        reveal_strlit("向终端写入失败");
        reveal_strlit("捕获视图层次失败");
        reveal_strlit("解析视图层次失败");
    }
}

/// Every translation in block 10 of the chinese catalog is non-empty.
proof fn lemma_zh_block_10_nonempty(key: Seq<char>)
    ensures
        zh_block_10(key) matches Some(t) ==> t.len() > 0,
{
    if zh_block_10(key) is Some {
        reveal_strlit("无法启动日志会话");
        reveal_strlit("等待日志进程退出失败");
        reveal_strlit("建立端口转发失败");
        reveal_strlit("无法访问 DevTools 调试接口");
        reveal_strlit("APK 安装失败");
        reveal_strlit("无线配对失败");
        reveal_strlit("切换无线模式失败");
        reveal_strlit("发现调试服务失败");
        reveal_strlit("配对信息无效：请检查地址、端口与配对码（6–8 位数字）");
        reveal_strlit("设备已不在线，请刷新后重试");
        reveal_strlit("AI 助手");
    }
}

/// Every translation in the chinese catalog is non-empty.
pub proof fn lemma_zh_entries_nonempty(key: Seq<char>)
    ensures
        zh_catalog(key) matches Some(t) ==> t.len() > 0,
{
    lemma_zh_block_0_nonempty(key);
    lemma_zh_block_1_nonempty(key);
    lemma_zh_block_2_nonempty(key);
    lemma_zh_block_3_nonempty(key);
    lemma_zh_block_4_nonempty(key);
    lemma_zh_block_5_nonempty(key);
    lemma_zh_block_6_nonempty(key);
    lemma_zh_block_7_nonempty(key);
    lemma_zh_block_8_nonempty(key);
    lemma_zh_block_9_nonempty(key);
    lemma_zh_block_10_nonempty(key);
}

} // verus!
