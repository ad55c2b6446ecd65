//! The fixed parts of the AppleScript and JavaScript for Automation texts.
use vstd::prelude::*;

verus! {

/// The window list query, before the escaped application name.
pub const ALL_WINDOWS_HEAD: &'static str = "\ntell application \"System Events\"\n    tell process \"";

/// The window list query, after the escaped application name.
pub const ALL_WINDOWS_TAIL: &'static str = "\"\n        try\n            set windowList to every window\n            set windowDataList to {}\n\n            repeat with win in windowList\n                try\n                    set winTitle to title of win\n                    set winPos to position of win\n                    set winSize to size of win\n\n                    try\n                        set winMinimized to miniaturized of win\n                    on error\n                        set winMinimized to false\n                    end try\n\n                    try\n                        set winVisible to visible of win\n                    on error\n                        set winVisible to true\n                    end try\n\n                    set windowData to winTitle & \"|\" & (item 1 of winPos) & \",\" & (item 2 of winPos) & \"|\" & (item 1 of winSize) & \",\" & (item 2 of winSize) & \"|\" & winMinimized & \"|\" & winVisible\n                    set end of windowDataList to windowData\n                on error\n                    -- ウィンドウをスキップ\n                end try\n            end repeat\n\n            return windowDataList\n        on error errMsg\n            return \"error: \" & errMsg\n        end try\n    end tell\nend tell\n";

/// The single window query, before the escaped application name.
pub const WINDOW_INFO_HEAD: &'static str = "\ntell application \"System Events\"\n    tell process \"";

/// The single window query, after the escaped application name.
pub const WINDOW_INFO_AFTER_APP: &'static str = "\"\n        try\n";

/// Choosing the window by title, before the escaped title.
pub const SELECT_BY_TITLE_HEAD: &'static str = "\n            set targetWindow to first window whose name contains \"";

/// Choosing the window by title, after the escaped title.
pub const SELECT_BY_TITLE_TAIL: &'static str = "\"\n";

/// Choosing the first window.
pub const SELECT_FIRST_WINDOW: &'static str = "\n            set targetWindow to window 1\n";

/// The single window query, after the window is chosen.
pub const WINDOW_INFO_TAIL: &'static str = "\n            set winPos to position of targetWindow\n            set winSize to size of targetWindow\n            set winTitle to title of targetWindow\n\n            try\n                set winMinimized to miniaturized of targetWindow\n            on error\n                set winMinimized to false\n            end try\n\n            try\n                set winVisible to visible of targetWindow\n            on error\n                set winVisible to true\n            end try\n\n            return winTitle & \"|\" & (item 1 of winPos) & \",\" & (item 2 of winPos) & \"|\" & (item 1 of winSize) & \",\" & (item 2 of winSize) & \"|\" & winMinimized & \"|\" & winVisible\n        on error errMsg\n            return \"error: \" & errMsg\n        end try\n    end tell\nend tell\n";

/// The move-and-resize script, before the escaped application name.
pub const RESIZE_HEAD: &'static str = "\ntell application \"System Events\"\n    try\n        tell process \"";

/// The move-and-resize script, after the escaped application name.
pub const RESIZE_AFTER_APP: &'static str = "\"\n";

/// Setting the position, before the coordinates.
pub const SET_POSITION_HEAD: &'static str = "\n            set position of targetWindow to {";

/// Setting the size, before the width and height.
pub const SET_SIZE_HEAD: &'static str = "\n            set size of targetWindow to {";

/// Between the two numbers of a position or size.
pub const PAIR_SEPARATOR: &'static str = ", ";

/// After the two numbers of a position or size.
pub const PAIR_END: &'static str = "}\n";

/// The end of the move-and-resize script.
pub const RESIZE_TAIL: &'static str = "\n        end tell\n        return \"success\"\n    on error errMsg\n        return \"error: \" & errMsg\n    end try\nend tell\n";

/// The new window script, before the escaped application name.
pub const NEW_WINDOW_HEAD: &'static str = "\ntell application \"System Events\"\n    tell process \"";

/// The new window script, after the escaped application name.
pub const NEW_WINDOW_TAIL: &'static str = "\"\n        try\n            activate\n\n            -- メニューバーを取得\n            set menubar to menu bar 1\n            set allMenus to (every menu of menubar)\n            set fileMenu to {}\n\n            -- File または ファイル メニューを検索\n            repeat with m in allMenus\n                if name of m is \"File\" or name of m is \"ファイル\" then\n                    set fileMenu to m\n                    exit repeat\n                end if\n            end repeat\n\n            if fileMenu is {} then\n                return \"error: ファイルメニューが見つかりません\"\n            end if\n\n            -- メニューアイテムを取得\n            set menuItems to (every menu item of fileMenu)\n\n            -- 「New Window」「新規ウインドウ」「新規Finderウインドウ」を検索してクリック\n            repeat with mi in menuItems\n                try\n                    set itemName to name of mi\n                    -- 英語と日本語の両方に対応\n                    if (itemName contains \"New Window\") or (itemName contains \"新規ウインドウ\") or (itemName contains \"新規Finderウインドウ\") then\n                        click mi\n                        return \"success\"\n                    end if\n                end try\n            end repeat\n\n            return \"error: 新規ウィンドウメニューアイテムが見つかりません\"\n        on error errMsg\n            return \"error: \" & errMsg\n        end try\n    end tell\nend tell\n";

/// The running check, before the escaped application name.
pub const IS_RUNNING_HEAD: &'static str = "\ntell application \"System Events\"\n    try\n        application process \"";

/// The running check, after the escaped application name.
pub const IS_RUNNING_TAIL: &'static str = "\" exists\n    on error\n        false\n    end try\nend tell\n";

/// The process id query, before the escaped application name.
pub const PROCESS_ID_HEAD: &'static str = "\ntell application \"System Events\"\n    try\n        unix id of application process \"";

/// The process id query, after the escaped application name.
pub const PROCESS_ID_TAIL: &'static str = "\"\n    on error\n        \"\"\n    end try\nend tell\n";

/// The launch script, before the escaped application name.
pub const LAUNCH_HEAD: &'static str = "\ntell application \"";

/// The launch script, after the escaped application name.
pub const LAUNCH_TAIL: &'static str = "\"\n    launch\n    activate\n    reopen\nend tell\n";

/// The activate script, before the escaped application name.
pub const ACTIVATE_HEAD: &'static str = "\ntell application \"";

/// The activate script, after the escaped application name.
pub const ACTIVATE_TAIL: &'static str = "\"\n    activate\n    reopen\nend tell\n";

/// The query for the running applications.
pub const RUNNING_APPS_SCRIPT: &'static str = "\ntell application \"System Events\"\n    set appList to {}\n    set procList to (name of every process whose background only is false)\n    repeat with procName in procList\n        try\n            set procId to unix id of application process procName\n            set end of appList to procName & \"|\" & procId\n        on error\n            set end of appList to procName & \"|\"\n        end try\n    end repeat\n    return appList\nend tell\n";

/// Finding the "Window" menu, whatever its spelling.
pub const FIND_WINDOW_MENU_SCRIPT: &'static str = "\n      set menubar to menu bar 1\n      set allMenus to (every menu of menubar)\n      set winMenu to missing value\n      repeat with m in allMenus\n        set n to (name of m)\n        if n is \"ウインドウ\" or n is \"ウィンドウ\" or n is \"Window\" then\n          set winMenu to m\n          exit repeat\n        end if\n      end repeat\n\n      if winMenu is missing value then\n        return \"Error: ウインドウメニューが見つかりません\"\n      end if\n";

/// Looking for an item of the "Move & Resize" submenu, before the item condition.
pub const MOVE_RESIZE_LOOKUP_HEAD: &'static str = "\n      set mrItem to missing value\n      repeat with mi in (every menu item of winMenu)\n        set n to (name of mi)\n        if n is \"移動とサイズ変更\" or n is \"Move & Resize\" then\n          set mrItem to mi\n          exit repeat\n        end if\n      end repeat\n\n      if mrItem is missing value then\n        return \"Error: 移動とサイズ変更メニューが見つかりません\"\n      end if\n\n      set subMenu to menu 1 of mrItem\n      set targetItem to missing value\n      repeat with mi in (every menu item of subMenu)\n        set n to (name of mi)\n        if ";

/// Looking for an item of the "Window" menu itself, before the item condition.
pub const WINDOW_MENU_LOOKUP_HEAD: &'static str = "\n      set targetItem to missing value\n      repeat with mi in (every menu item of winMenu)\n        set n to (name of mi)\n        if ";

/// The end of a menu item lookup, after the item condition.
pub const LOOKUP_TAIL: &'static str = " then\n          set targetItem to mi\n          exit repeat\n        end if\n      end repeat\n";

/// A menu action script, before the escaped application name.
pub const MENU_SCRIPT_START: &'static str = "\ntell application \"";

/// A menu action script, between the two escaped application names.
pub const MENU_SCRIPT_AFTER_APP: &'static str = "\" to activate\ndelay 0.3\ntell application \"System Events\"\n  tell process \"";

/// A menu action script, before the "Window" menu lookup.
pub const MENU_SCRIPT_TRY: &'static str = "\"\n    try\n";

/// The tiling script, between the menu lookup and the item lookup.
pub const TILE_AFTER_FIND: &'static str = "\n";

/// The tiling script, after the item lookup, before the escaped item name.
pub const TILE_AFTER_LOOKUP: &'static str = "\n      if targetItem is missing value then\n        return \"Error: メニュー項目が見つかりません: ";

/// The tiling script, after the escaped item name.
pub const TILE_TAIL: &'static str = "\"\n      end if\n\n      click targetItem\n      return \"Success\"\n    on error err_msg\n      return \"Error: \" & err_msg\n    end try\n  end tell\nend tell\n";

/// The display move script, after the menu lookup, before the item condition.
pub const MOVE_AFTER_FIND: &'static str = "\n      set targetItem to missing value\n      repeat with mi in (every menu item of winMenu)\n        set n to (name of mi)\n        if ";

/// The display move script, after the item condition, before the not-found message.
pub const MOVE_AFTER_CONDITION: &'static str = " then\n          set targetItem to mi\n          exit repeat\n        end if\n      end repeat\n\n      if targetItem is missing value then\n        return \"Error: ";

/// The display move script, after the not-found message.
pub const MOVE_TAIL: &'static str = "\"\n      end if\n\n      click targetItem\n      return \"Success\"\n    on error err_msg\n      return \"Error: \" & err_msg\n    end try\n  end tell\nend tell\n";

/// The JavaScript for Automation query for the connected displays.
pub const DISPLAYS_SCRIPT: &'static str = "\nObjC.import('AppKit')\n\nconst screens = $.NSScreen.screens\nlet displays = []\n\nif (screens.count === 0) {\n    \"error: ディスプレイが接続されていません\"\n} else {\n    for (let i = 0; i < screens.count; i++) {\n        const screen = screens.objectAtIndex(i)\n        const displayName = ObjC.unwrap(screen.localizedName) || \"Unknown\"\n        const frame = screen.frame\n\n        const display = {\n            name: displayName,\n            width: Math.round(frame.size.width),\n            height: Math.round(frame.size.height),\n            origin_x: Math.round(frame.origin.x),\n            origin_y: Math.round(frame.origin.y)\n        }\n        displays.push(display)\n    }\n\n    JSON.stringify(displays)\n}\n";

} // verus!
